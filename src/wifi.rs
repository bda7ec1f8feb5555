//! Wi-Fi access points and association.
use vstd::prelude::*;

verus! {

/// The access points that the fabric offers, as (SSID, passphrase) pairs in
/// declaration order.
pub struct AccessPoints {
    aps: Vec<(String, String)>,
}

/// The access points the host starts with.
pub open spec fn seeded_aps() -> Seq<(Seq<char>, Seq<char>)> {
    seq![("helios"@, "password"@), ("guest"@, "guest"@)]
}

impl AccessPoints {
    /// The (SSID, passphrase) pairs.
    pub closed spec fn aps(&self) -> Seq<(Seq<char>, Seq<char>)> {
        Seq::new(self.aps@.len(), |i: int| (self.aps@[i].0@, self.aps@[i].1@))
    }

    /// The access points the host starts with.
    pub fn seeded() -> (r: Self)
        ensures
            r.aps() == seeded_aps(),
    {
        let mut aps: Vec<(String, String)> = Vec::new();
        aps.push(("helios".to_string(), "password".to_string()));
        aps.push(("guest".to_string(), "guest".to_string()));
        let r = AccessPoints { aps };
        assert(r.aps() =~= seeded_aps());
        r
    }

    /// The SSIDs, in declaration order.
    pub fn scan(&self) -> (r: Vec<String>)
        ensures
            r@.len() == self.aps().len(),
            forall|i: int| 0 <= i < r@.len() ==> #[trigger] r@[i]@ == self.aps()[i].0,
    {
        let mut r: Vec<String> = Vec::new();
        let mut i: usize = 0;
        while i < self.aps.len()
            invariant
                i <= self.aps@.len(),
                r@.len() == i,
                forall|j: int| 0 <= j < i ==> #[trigger] r@[j]@ == self.aps()[j].0,
            decreases self.aps@.len() - i,
        {
            r.push(self.aps[i].0.clone());
            i = i + 1;
        }
        r
    }

    /// Whether (`ssid`, `passphrase`) is one of the access points.
    /// Association has no other effect.
    pub fn join(&self, ssid: &String, passphrase: &String) -> (r: bool)
        ensures
            r == self.aps().contains((ssid@, passphrase@)),
    {
        let mut i: usize = 0;
        while i < self.aps.len()
            invariant
                i <= self.aps@.len(),
                forall|j: int| 0 <= j < i ==> #[trigger] self.aps()[j] != (ssid@, passphrase@),
            decreases self.aps@.len() - i,
        {
            if self.aps[i].0 == *ssid && self.aps[i].1 == *passphrase {
                assert(self.aps()[i as int] == (ssid@, passphrase@));
                return true;
            }
            i = i + 1;
        }
        false
    }
}

} // verus!
