//! The parsed shapes of the three upstream response kinds, reduced to the
//! plain values that formatting reads. All values are transient: parsed from
//! one upstream response and discarded after formatting.
use vstd::prelude::*;

verus! {

/// One web search result.
pub struct WebResult {
    pub title: String,
    pub description: String,
    pub url: String,
}

/// One news search result.
pub struct NewsResult {
    pub title: String,
    pub description: String,
    pub url: String,
    /// How old the article is, as upstream words it.
    pub age: Option<String>,
    /// Whether upstream marks the article as breaking news.
    pub breaking: Option<bool>,
    /// The thumbnail image's address, when upstream sent one.
    pub thumbnail_src: Option<String>,
}

/// A postal address; every field optional, already normalized from the two
/// upstream field-name casings during parsing.
pub struct PostalAddress {
    pub street_address: Option<String>,
    pub address_locality: Option<String>,
    pub address_region: Option<String>,
    pub postal_code: Option<String>,
    pub country: Option<String>,
}

/// One location reference from a locations search: an identifier, plus
/// whatever inline data upstream sent along.
pub struct LocationRef {
    pub id: String,
    pub title: Option<String>,
    /// Latitude and longitude as upstream rendered them; only the first two
    /// entries are meaningful, and fewer than two means no usable position.
    pub coordinates: Option<Vec<String>>,
    pub postal_address: Option<PostalAddress>,
}

/// An aggregate rating. The value is held as upstream rendered it.
pub struct Rating {
    pub value: Option<String>,
    pub count: Option<u32>,
}

/// One point-of-interest record from the detail lookup.
pub struct PoiDetail {
    pub id: String,
    pub name: String,
    pub address: PostalAddress,
    pub phone: Option<String>,
    pub rating: Option<Rating>,
    pub opening_hours: Option<Vec<String>>,
    pub price_range: Option<String>,
}

/// The first description recorded for `id`, if any.
pub open spec fn spec_description_for(
    entries: Seq<(Seq<char>, Seq<char>)>,
    id: Seq<char>,
) -> Option<Seq<char>>
    decreases entries.len(),
{
    if entries.len() == 0 {
        None
    } else if entries[0].0 == id {
        Some(entries[0].1)
    } else {
        spec_description_for(entries.drop_first(), id)
    }
}

/// Free-text descriptions of points of interest, keyed by location id.
pub struct DescriptionMap {
    pub entries: Vec<(String, String)>,
}

impl DescriptionMap {
    /// A map with no descriptions.
    pub fn new() -> (r: DescriptionMap)
        ensures
            r.entries.deep_view() == Seq::<(Seq<char>, Seq<char>)>::empty(),
    {
        let r = DescriptionMap { entries: Vec::new() };
        proof {
            assert(r.entries.deep_view() =~= Seq::<(Seq<char>, Seq<char>)>::empty());
        }
        r
    }

    /// Records a description for `id`, after any already recorded.
    pub fn push(&mut self, id: String, description: String)
        ensures
            final(self).entries.deep_view() == old(self).entries.deep_view().push(
                (id@, description@),
            ),
    {
        let ghost before = self.entries.deep_view();
        self.entries.push((id, description));
        proof {
            assert(self.entries.deep_view() =~= before.push(
                (self.entries@.last().0@, self.entries@.last().1@),
            ));
        }
    }

    /// The description recorded for `id`, if any; the first one wins.
    pub fn description_for(&self, id: &str) -> (r: Option<String>)
        ensures
            match r {
                Some(d) => spec_description_for(self.entries.deep_view(), id@) == Some(d@),
                None => spec_description_for(self.entries.deep_view(), id@) is None,
            },
    {
        let ghost all = self.entries.deep_view();
        proof {
            assert(all.skip(0) =~= all);
        }
        let mut i: usize = 0;
        while i < self.entries.len()
            invariant
                all == self.entries.deep_view(),
                all.len() == self.entries@.len(),
                forall|j: int| 0 <= j < all.len() ==> all[j]
                    == (self.entries@[j].0@, self.entries@[j].1@),
                i <= self.entries@.len(),
                spec_description_for(all, id@) == spec_description_for(
                    all.skip(i as int),
                    id@,
                ),
            decreases self.entries@.len() - i,
        {
            let entry = &self.entries[i];
            let found = {
                let key: &str = entry.0.as_str();
                let probe: &str = id;
                str_equal(key, probe)
            };
            proof {
                assert(all.skip(i as int)[0] == all[i as int]);
                assert(all.skip(i as int).drop_first() =~= all.skip(i + 1 as int));
            }
            if found {
                return Some(entry.1.clone());
            }
            i += 1;
        }
        proof {
            assert(all.skip(all.len() as int) =~= Seq::<(Seq<char>, Seq<char>)>::empty());
        }
        None
    }
}

/// Whether two strings hold the same characters.
pub fn str_equal(a: &str, b: &str) -> (r: bool)
    ensures
        r == (a@ == b@),
{
    let an = a.unicode_len();
    if an != b.unicode_len() {
        return false;
    }
    let mut i: usize = 0;
    while i < an
        invariant
            an == a@.len(),
            an == b@.len(),
            i <= an,
            forall|j: int| 0 <= j < i ==> a@[j] == b@[j],
        decreases an - i,
    {
        if a.get_char(i) != b.get_char(i) {
            return false;
        }
        i += 1;
    }
    proof {
        assert(a@ =~= b@);
    }
    true
}

} // verus!
