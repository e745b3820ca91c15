use vstd::prelude::*;

verus! {

/// Text of the notice shown when the client loses its server.
#[derive(Debug)]
pub struct DisconnectConfig {
    pub body: String,
}

/// Title and texts of the app's notifications.
#[derive(Debug)]
pub struct NotificationConfig {
    pub title: String,
    pub disconnect: DisconnectConfig,
}

/// Name and icon of one brand of the app.
#[derive(Debug)]
pub struct BrandConfig {
    pub product_name: String,
    pub icon_path: String,
}

/// The app's configuration file; brands are keyed by name, each key once.
#[derive(Debug)]
pub struct CometConfig {
    pub notifications: NotificationConfig,
    pub brands: Vec<(String, BrandConfig)>,
}

/// Whether `key` names a brand of `brands`.
pub open spec fn has_brand(brands: Seq<(String, BrandConfig)>, key: Seq<char>) -> bool {
    exists|i: int| 0 <= i < brands.len() && (#[trigger] brands[i]).0@ == key
}

impl CometConfig {
    /// The brand stored under `key`, if any.
    pub fn brand(&self, key: &String) -> (r: Option<&BrandConfig>)
        ensures
            r is None <==> !has_brand(self.brands@, key@),
            r matches Some(b) ==> exists|i: int|
                0 <= i < self.brands@.len() && self.brands@[i].0@ == key@ && *b == (
                #[trigger] self.brands@[i]).1 && forall|j: int|
                    0 <= j < i ==> (#[trigger] self.brands@[j]).0@ != key@,
    {
        let mut i: usize = 0;
        while i < self.brands.len()
            invariant
                0 <= i <= self.brands@.len(),
                forall|k: int| 0 <= k < i ==> (#[trigger] self.brands@[k]).0@ != key@,
            decreases self.brands@.len() - i,
        {
            if self.brands[i].0 == *key {
                return Some(&self.brands[i].1);
            }
            i = i + 1;
        }
        None
    }
}

/// Progress of an executor installation, as shown in the UI.
#[derive(Debug)]
pub struct InstallProgress {
    pub state: String,
}

} // verus!
