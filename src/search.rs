use crate::text::{owned, push_char};
use vstd::prelude::*;

verus! {

/// Parameters of a script catalog search.
#[derive(Debug)]
pub struct ScriptSearchParams {
    pub q: String,
    pub page: Option<u32>,
    pub max: Option<u32>,
    pub mode: Option<String>,
    pub patched: Option<u8>,
    pub key: Option<u8>,
    pub universal: Option<u8>,
    pub verified: Option<u8>,
    pub sort_by: Option<String>,
    pub order: Option<String>,
    pub strict: Option<bool>,
}

/// Parameters of a search in the second script catalog.
#[derive(Debug)]
pub struct RScriptSearchParams {
    pub page: Option<u32>,
    pub order_by: Option<String>,
    pub sort: Option<String>,
    pub q: Option<String>,
}

/// A query pair as two character sequences.
pub type PairView = (Seq<char>, Seq<char>);

/// The decimal digit for `d`.
pub open spec fn digit(d: nat) -> char {
    ((48 + d) as u8) as char
}

/// `n` written in decimal, without leading zeros.
pub open spec fn decimal(n: nat) -> Seq<char>
    decreases n,
{
    if n < 10 {
        seq![digit(n)]
    } else {
        decimal(n / 10).push(digit(n % 10))
    }
}

/// `b` written as `true` or `false`.
pub open spec fn bool_text(b: bool) -> Seq<char> {
    if b {
        "true"@
    } else {
        "false"@
    }
}

/// The pairs as character sequences.
pub open spec fn pairs_view(pairs: Seq<(String, String)>) -> Seq<PairView> {
    pairs.map_values(|p: (String, String)| (p.0@, p.1@))
}

/// A pair `name=n` when a number is given.
pub open spec fn number_pair(name: Seq<char>, v: Option<nat>) -> Seq<PairView> {
    match v {
        Some(n) => seq![(name, decimal(n))],
        None => Seq::empty(),
    }
}

/// A pair `name=text` when a text is given.
pub open spec fn text_pair(name: Seq<char>, v: Option<String>) -> Seq<PairView> {
    match v {
        Some(t) => seq![(name, t@)],
        None => Seq::empty(),
    }
}

/// Appends `n` in decimal.
fn push_decimal(out: &mut String, n: u64)
    ensures
        final(out)@ == old(out)@ + decimal(n as nat),
    decreases n,
{
    if n >= 10 {
        push_decimal(out, n / 10);
    }
    let d = (n % 10) as u8;
    push_char(out, (48u8 + d) as char);
    assert(old(out)@ + decimal(n as nat) =~= (if n >= 10 { old(out)@ + decimal((n / 10) as nat) } else { old(out)@ }).push(digit((n % 10) as nat)));
}

/// `n` in decimal.
pub fn to_decimal(n: u64) -> (r: String)
    ensures
        r@ == decimal(n as nat),
{
    let mut s = String::new();
    push_decimal(&mut s, n);
    s
}

fn push_pair(pairs: &mut Vec<(String, String)>, name: &str, value: String)
    ensures
        pairs_view(final(pairs)@) == pairs_view(old(pairs)@).push((name@, value@)),
{
    pairs.push((owned(name), value));
    assert(pairs_view(pairs@) =~= pairs_view(old(pairs)@).push((name@, value@)));
}

fn push_number(pairs: &mut Vec<(String, String)>, name: &str, v: Option<u64>)
    ensures
        pairs_view(final(pairs)@) == pairs_view(old(pairs)@) + number_pair(
            name@,
            match v {
                Some(n) => Some(n as nat),
                None => None,
            },
        ),
{
    if let Some(n) = v {
        push_pair(pairs, name, to_decimal(n));
    }
    assert(pairs_view(pairs@) =~= pairs_view(old(pairs)@) + number_pair(name@, match v { Some(n) => Some(n as nat), None => None }));
}

fn push_text(pairs: &mut Vec<(String, String)>, name: &str, v: &Option<String>)
    ensures
        pairs_view(final(pairs)@) == pairs_view(old(pairs)@) + text_pair(name@, *v),
{
    if let Some(t) = v {
        push_pair(pairs, name, t.clone());
    }
    assert(pairs_view(pairs@) =~= pairs_view(old(pairs)@) + text_pair(name@, *v));
}

/// A small unsigned number widened.
pub open spec fn opt_u32(v: Option<u32>) -> Option<nat> {
    match v {
        Some(n) => Some(n as nat),
        None => None,
    }
}

/// A byte-sized number widened.
pub open spec fn opt_u8(v: Option<u8>) -> Option<nat> {
    match v {
        Some(n) => Some(n as nat),
        None => None,
    }
}

fn widen32(v: Option<u32>) -> (r: Option<u64>)
    ensures
        match r {
            Some(n) => opt_u32(v) == Some(n as nat),
            None => opt_u32(v) is None,
        },
{
    match v {
        Some(n) => Some(n as u64),
        None => None,
    }
}

fn widen8(v: Option<u8>) -> (r: Option<u64>)
    ensures
        match r {
            Some(n) => opt_u8(v) == Some(n as nat),
            None => opt_u8(v) is None,
        },
{
    match v {
        Some(n) => Some(n as u64),
        None => None,
    }
}

impl ScriptSearchParams {
    /// The query pairs of the search request, in this order: `q`, then each
    /// given one of `page`, `max`, `mode`, `patched`, `key`, `universal`,
    /// `verified`, `sortBy`, `order`, `strict`.
    pub open spec fn query_spec(&self) -> Seq<PairView> {
        seq![("q"@, self.q@)] + number_pair("page"@, opt_u32(self.page)) + number_pair(
            "max"@,
            opt_u32(self.max),
        ) + text_pair("mode"@, self.mode) + number_pair("patched"@, opt_u8(self.patched))
            + number_pair("key"@, opt_u8(self.key)) + number_pair(
            "universal"@,
            opt_u8(self.universal),
        ) + number_pair("verified"@, opt_u8(self.verified)) + text_pair("sortBy"@, self.sort_by)
            + text_pair("order"@, self.order) + match self.strict {
            Some(b) => seq![("strict"@, bool_text(b))],
            None => Seq::empty(),
        }
    }

    pub fn query_pairs(&self) -> (r: Vec<(String, String)>)
        ensures
            pairs_view(r@) == self.query_spec(),
    {
        let mut pairs: Vec<(String, String)> = Vec::new();
        push_pair(&mut pairs, "q", self.q.clone());
        assert(pairs_view(pairs@) =~= seq![("q"@, self.q@)]);
        push_number(&mut pairs, "page", widen32(self.page));
        push_number(&mut pairs, "max", widen32(self.max));
        push_text(&mut pairs, "mode", &self.mode);
        push_number(&mut pairs, "patched", widen8(self.patched));
        push_number(&mut pairs, "key", widen8(self.key));
        push_number(&mut pairs, "universal", widen8(self.universal));
        push_number(&mut pairs, "verified", widen8(self.verified));
        push_text(&mut pairs, "sortBy", &self.sort_by);
        push_text(&mut pairs, "order", &self.order);
        let ghost before = pairs_view(pairs@);
        if let Some(b) = self.strict {
            let t = if b {
                owned("true")
            } else {
                owned("false")
            };
            push_pair(&mut pairs, "strict", t);
            assert(before.push(("strict"@, bool_text(b))) =~= before + seq![("strict"@, bool_text(b))]);
        } else {
            assert(before =~= before + Seq::<PairView>::empty());
        }
        pairs
    }
}

impl RScriptSearchParams {
    /// The query pairs of the search request: each given one of `page`,
    /// `orderBy`, `sort`, `q`, in this order.
    pub open spec fn query_spec(&self) -> Seq<PairView> {
        number_pair("page"@, opt_u32(self.page)) + text_pair("orderBy"@, self.order_by) + text_pair(
            "sort"@,
            self.sort,
        ) + text_pair("q"@, self.q)
    }

    pub fn query_pairs(&self) -> (r: Vec<(String, String)>)
        ensures
            pairs_view(r@) == self.query_spec(),
    {
        let mut pairs: Vec<(String, String)> = Vec::new();
        assert(pairs_view(pairs@) =~= Seq::<PairView>::empty());
        push_number(&mut pairs, "page", widen32(self.page));
        assert(pairs_view(pairs@) =~= number_pair("page"@, opt_u32(self.page)));
        push_text(&mut pairs, "orderBy", &self.order_by);
        push_text(&mut pairs, "sort", &self.sort);
        push_text(&mut pairs, "q", &self.q);
        pairs
    }
}

} // verus!
