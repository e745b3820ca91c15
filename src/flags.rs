use crate::text::push_char;
use vstd::prelude::*;
use vstd::string::*;

verus! {

/// Pattern of a flag declaration line of the client's variable list; its
/// first group is the flag name.
pub const CLIENT_FLAG_PATTERN: &'static str = r"\[(?:C\+\+|Lua)\]\s+(\w+)";

/// A choice offered for a fast flag in the UI.
#[derive(Debug)]
pub struct FastFlagOption {
    pub label: String,
    pub value: String,
    pub description: Option<String>,
}

/// Known flag names, per source; a source that could not be fetched is
/// `None`. Each list holds every name once.
#[derive(Debug)]
pub struct FlagCache {
    pub mac: Option<Vec<String>>,
    pub client: Option<Vec<String>>,
}

/// What the first group of `pattern`'s leftmost match in `text` is, if the
/// pattern compiles and matches with that group taking part.
pub uninterp spec fn regex_first_group(pattern: Seq<char>, text: Seq<char>) -> Option<Seq<char>>;

/// Relies on `regex::Regex::new` and `Regex::captures`: the text of group 1
/// in the leftmost match of `pattern` in `text`.
#[verifier::external_body]
fn first_group(pattern: &str, text: &str) -> (r: Option<String>)
    ensures
        r matches Some(s) ==> regex_first_group(pattern@, text@) == Some(s@),
        r is None ==> regex_first_group(pattern@, text@) is None,
{
    let re = regex::Regex::new(pattern).ok()?;
    re.captures(text).and_then(|c| c.get(1)).map(|m| m.as_str().to_string())
}

/// Whether `x` is one of `names`.
pub open spec fn listed(names: Seq<String>, x: Seq<char>) -> bool {
    exists|i: int| 0 <= i < names.len() && (#[trigger] names[i])@ == x
}

/// Whether no name occurs twice in `names`.
pub open spec fn distinct_names(names: Seq<String>) -> bool {
    forall|i: int, j: int| 0 <= i < j < names.len() ==> (#[trigger] names[i])@ != (#[trigger] names[j])@
}

/// Whether a flag counts as known: it is listed by a fetched source; with
/// no source fetched every flag counts as known.
pub open spec fn is_known(cache: FlagCache, flag: Seq<char>) -> bool {
    match (cache.mac, cache.client) {
        (Some(m), Some(c)) => listed(m@, flag) || listed(c@, flag),
        (Some(m), None) => listed(m@, flag),
        (None, Some(c)) => listed(c@, flag),
        (None, None) => true,
    }
}

/// The flags of `flags` that `cache` does not know, order kept.
pub open spec fn unknown_flags(cache: FlagCache, flags: Seq<String>) -> Seq<String>
    decreases flags.len(),
{
    if flags.len() == 0 {
        flags
    } else if is_known(cache, flags.last()@) {
        unknown_flags(cache, flags.drop_last())
    } else {
        unknown_flags(cache, flags.drop_last()).push(flags.last())
    }
}

/// The lines of `s`, split at each `\n`.
pub open spec fn split_lines(s: Seq<char>) -> Seq<Seq<char>>
    decreases s.len(),
{
    if s.len() == 0 {
        seq![Seq::empty()]
    } else {
        let p = split_lines(s.drop_last());
        if s.last() == '\n' {
            p.push(Seq::empty())
        } else {
            p.update(p.len() - 1, p.last().push(s.last()))
        }
    }
}

proof fn lemma_split_lines_nonempty(s: Seq<char>)
    ensures
        split_lines(s).len() >= 1,
    decreases s.len(),
{
    if s.len() > 0 {
        lemma_split_lines_nonempty(s.drop_last());
    }
}

/// Whether some line of `text` declares flag `x`.
pub open spec fn declares(text: Seq<char>, x: Seq<char>) -> bool {
    exists|i: int|
        0 <= i < split_lines(text).len() && regex_first_group(
            CLIENT_FLAG_PATTERN@,
            #[trigger] split_lines(text)[i],
        ) == Some(x)
}

/// Whether `x` is one of `names`.
fn contains_name(names: &Vec<String>, x: &String) -> (r: bool)
    ensures
        r == listed(names@, x@),
{
    let mut i: usize = 0;
    while i < names.len()
        invariant
            0 <= i <= names@.len(),
            forall|j: int| 0 <= j < i ==> (#[trigger] names@[j])@ != x@,
        decreases names@.len() - i,
    {
        if names[i] == *x {
            return true;
        }
        i = i + 1;
    }
    false
}

/// Adds the flag declared by `line`, if any and not yet present.
fn take_line(line: &String, names: &mut Vec<String>)
    requires
        distinct_names(old(names)@),
    ensures
        distinct_names(final(names)@),
        forall|x: Seq<char>| #[trigger] listed(final(names)@, x) <==> (listed(old(names)@, x) || regex_first_group(CLIENT_FLAG_PATTERN@, line@) == Some(x)),
{
    match first_group(CLIENT_FLAG_PATTERN, line.as_str()) {
        Some(name) => {
            if !contains_name(names, &name) {
                let ghost before = names@;
                let ghost nv = name@;
                names.push(name);
                assert(names@[before.len() as int]@ == nv);
                assert forall|x: Seq<char>| #[trigger] listed(names@, x) <==> (listed(before, x) || regex_first_group(CLIENT_FLAG_PATTERN@, line@) == Some(x)) by {
                    if listed(before, x) {
                        let i = choose|i: int| 0 <= i < before.len() && (#[trigger] before[i])@ == x;
                        assert(names@[i] == before[i]);
                    }
                    if regex_first_group(CLIENT_FLAG_PATTERN@, line@) == Some(x) {
                        assert(names@[before.len() as int]@ == x);
                    }
                    if listed(names@, x) && !listed(before, x) {
                        let i = choose|i: int| 0 <= i < names@.len() && (#[trigger] names@[i])@ == x;
                        if i < before.len() {
                            assert(names@[i] == before[i]);
                        }
                    }
                }
            }
        },
        None => {},
    }
}

/// The names of all flags that the client's variable list `text` declares,
/// one line at a time, each name once.
pub fn parse_client_flags(text: &str) -> (r: Vec<String>)
    ensures
        distinct_names(r@),
        forall|x: Seq<char>| #[trigger] listed(r@, x) <==> declares(text@, x),
{
    let n = text.unicode_len();
    let mut names: Vec<String> = Vec::new();
    let mut line = String::new();
    let mut i: usize = 0;
    while i < n
        invariant
            n == text@.len(),
            0 <= i <= n,
            distinct_names(names@),
            split_lines(text@.subrange(0, i as int)).len() >= 1,
            line@ == split_lines(text@.subrange(0, i as int)).last(),
            forall|x: Seq<char>| #[trigger] listed(names@, x) <==> exists|k: int|
                0 <= k < split_lines(text@.subrange(0, i as int)).len() - 1 && regex_first_group(
                    CLIENT_FLAG_PATTERN@,
                    #[trigger] split_lines(text@.subrange(0, i as int))[k],
                ) == Some(x),
        decreases n - i,
    {
        let ghost pre = text@.subrange(0, i as int);
        let ghost next = text@.subrange(0, i + 1);
        assert(next.drop_last() =~= pre);
        let c = text.get_char(i);
        proof { lemma_split_lines_nonempty(pre); }
        if c == '\n' {
            assert(split_lines(next) == split_lines(pre).push(Seq::empty()));
            take_line(&line, &mut names);
            line = String::new();
            assert forall|x: Seq<char>| #[trigger] listed(names@, x) <==> exists|k: int|
                0 <= k < split_lines(next).len() - 1 && regex_first_group(
                    CLIENT_FLAG_PATTERN@,
                    #[trigger] split_lines(next)[k],
                ) == Some(x) by {
                if listed(names@, x) {
                    if regex_first_group(CLIENT_FLAG_PATTERN@, split_lines(pre).last()) == Some(x) {
                        assert(split_lines(next)[split_lines(pre).len() - 1] == split_lines(pre).last());
                    } else {
                        let k = choose|k: int| 0 <= k < split_lines(pre).len() - 1 && regex_first_group(CLIENT_FLAG_PATTERN@, #[trigger] split_lines(pre)[k]) == Some(x);
                        assert(split_lines(next)[k] == split_lines(pre)[k]);
                    }
                }
                if exists|k: int| 0 <= k < split_lines(next).len() - 1 && regex_first_group(CLIENT_FLAG_PATTERN@, #[trigger] split_lines(next)[k]) == Some(x) {
                    let k = choose|k: int| 0 <= k < split_lines(next).len() - 1 && regex_first_group(CLIENT_FLAG_PATTERN@, #[trigger] split_lines(next)[k]) == Some(x);
                    assert(split_lines(next)[k] == split_lines(pre)[k]);
                }
            }
        } else {
            push_char(&mut line, c);
            assert(split_lines(next) == split_lines(pre).update(split_lines(pre).len() - 1, split_lines(pre).last().push(c)));
            assert(split_lines(next).len() == split_lines(pre).len());
            assert forall|x: Seq<char>| #[trigger] listed(names@, x) <==> exists|k: int|
                0 <= k < split_lines(next).len() - 1 && regex_first_group(
                    CLIENT_FLAG_PATTERN@,
                    #[trigger] split_lines(next)[k],
                ) == Some(x) by {
                if listed(names@, x) {
                    let k = choose|k: int| 0 <= k < split_lines(pre).len() - 1 && regex_first_group(CLIENT_FLAG_PATTERN@, #[trigger] split_lines(pre)[k]) == Some(x);
                    assert(split_lines(next)[k] == split_lines(pre)[k]);
                }
                if exists|k: int| 0 <= k < split_lines(next).len() - 1 && regex_first_group(CLIENT_FLAG_PATTERN@, #[trigger] split_lines(next)[k]) == Some(x) {
                    let k = choose|k: int| 0 <= k < split_lines(next).len() - 1 && regex_first_group(CLIENT_FLAG_PATTERN@, #[trigger] split_lines(next)[k]) == Some(x);
                    assert(split_lines(next)[k] == split_lines(pre)[k]);
                }
            }
            assert forall|k: int| 0 <= k < split_lines(next).len() - 1 implies #[trigger] split_lines(next)[k] == split_lines(pre)[k] by {}
        }
        i = i + 1;
    }
    assert(text@.subrange(0, n as int) =~= text@);
    take_line(&line, &mut names);
    assert forall|x: Seq<char>| #[trigger] listed(names@, x) <==> declares(text@, x) by {
        let ls = split_lines(text@);
        if declares(text@, x) {
            let k = choose|k: int| 0 <= k < ls.len() && regex_first_group(CLIENT_FLAG_PATTERN@, #[trigger] ls[k]) == Some(x);
            if k < ls.len() - 1 {
                assert(listed(names@, x));
            }
        }
        if listed(names@, x) {
            if regex_first_group(CLIENT_FLAG_PATTERN@, ls.last()) == Some(x) {
                assert(ls[ls.len() - 1] == ls.last());
            }
        }
    }
    names
}

impl FlagCache {
    /// A cache with no source fetched yet.
    pub fn empty() -> (r: FlagCache)
        ensures
            r.mac is None && r.client is None,
    {
        FlagCache { mac: None, client: None }
    }

    /// Stores the sources that were fetched; a source that failed keeps its
    /// previous names.
    pub fn refresh(&mut self, mac: Option<Vec<String>>, client: Option<Vec<String>>)
        ensures
            final(self).mac == (match mac {
                Some(m) => Some(m),
                None => old(self).mac,
            }),
            final(self).client == (match client {
                Some(c) => Some(c),
                None => old(self).client,
            }),
    {
        if let Some(m) = mac {
            self.mac = Some(m);
        }
        if let Some(c) = client {
            self.client = Some(c);
        }
    }

    /// Whether `flag` counts as known.
    pub fn knows(&self, flag: &String) -> (r: bool)
        ensures
            r == is_known(*self, flag@),
    {
        match (&self.mac, &self.client) {
            (Some(m), Some(c)) => contains_name(m, flag) || contains_name(c, flag),
            (Some(m), None) => contains_name(m, flag),
            (None, Some(c)) => contains_name(c, flag),
            (None, None) => true,
        }
    }

    /// The flags of `flags` that no fetched source lists, order kept.
    pub fn validate_flags(&self, flags: &[String]) -> (r: Vec<String>)
        ensures
            r@ == unknown_flags(*self, flags@),
    {
        let mut out: Vec<String> = Vec::new();
        let mut i: usize = 0;
        while i < flags.len()
            invariant
                0 <= i <= flags@.len(),
                out@ == unknown_flags(*self, flags@.subrange(0, i as int)),
            decreases flags@.len() - i,
        {
            assert(flags@.subrange(0, i + 1).drop_last() =~= flags@.subrange(0, i as int));
            if !self.knows(&flags[i]) {
                out.push(flags[i].clone());
            }
            i = i + 1;
        }
        assert(flags@.subrange(0, i as int) =~= flags@);
        out
    }
}

} // verus!
