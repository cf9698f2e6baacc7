//! The bookmark list: saved location labels, without duplicates, shown with
//! the automatic location first and the rest by city, then country code.
use vstd::prelude::*;
use vstd::string::*;
use vstd::seq_lib::*;
use std::cmp::Ordering;
use crate::location::{normalized_label, LocationData};
use crate::text::{
    comma_count_up_to_two, compare_text, count_from, first_field, lex_cmp, second_field, trim,
    trimmed_of, two_fields,
};

verus! {

/// The label of the location detected from the network address.
pub const AUTOMATIC: &'static str = "Automatic";

/// Whether a label is the automatic-location label.
pub open spec fn is_automatic(s: Seq<char>) -> bool {
    s == "Automatic"@
}

/// The sort key of a label with at least one comma: its trimmed city and
/// trimmed country code.
pub open spec fn label_key(s: Seq<char>) -> Option<(Seq<char>, Seq<char>)> {
    if count_from(s, ',', 0) >= 1 {
        Some((trimmed_of(first_field(s)), trimmed_of(second_field(s))))
    } else {
        None
    }
}

/// The order of two labels: by city, then by country code, when both have a
/// key; by the whole text otherwise.
pub open spec fn label_cmp(a: Seq<char>, b: Seq<char>) -> Ordering {
    match (label_key(a), label_key(b)) {
        (Some(ka), Some(kb)) => if lex_cmp(ka.0, kb.0) == Ordering::Equal {
            lex_cmp(ka.1, kb.1)
        } else {
            lex_cmp(ka.0, kb.0)
        },
        _ => lex_cmp(a, b),
    }
}

proof fn lemma_lex_antisym(a: Seq<char>, b: Seq<char>)
    ensures
        lex_cmp(a, b) == Ordering::Greater <==> lex_cmp(b, a) == Ordering::Less,
    decreases a.len(),
{
    if a.len() > 0 && b.len() > 0 && a[0] as u32 == b[0] as u32 {
        lemma_lex_antisym(a.drop_first(), b.drop_first());
    }
}

proof fn lemma_lex_equal_sym(a: Seq<char>, b: Seq<char>)
    ensures
        lex_cmp(a, b) == Ordering::Equal <==> lex_cmp(b, a) == Ordering::Equal,
    decreases a.len(),
{
    if a.len() > 0 && b.len() > 0 && a[0] as u32 == b[0] as u32 {
        lemma_lex_equal_sym(a.drop_first(), b.drop_first());
    }
}

/// If `a` sorts after `b`, then `b` sorts before `a`.
pub proof fn lemma_label_antisym(a: Seq<char>, b: Seq<char>)
    ensures
        label_cmp(a, b) == Ordering::Greater ==> label_cmp(b, a) == Ordering::Less,
{
    reveal(label_cmp);
    lemma_lex_antisym(a, b);
    if label_key(a) is Some && label_key(b) is Some {
        let ka = label_key(a)->0;
        let kb = label_key(b)->0;
        lemma_lex_antisym(ka.0, kb.0);
        lemma_lex_antisym(ka.1, kb.1);
        lemma_lex_equal_sym(ka.0, kb.0);
    }
}

/// Compares two labels in bookmark order.
pub fn compare_labels(a: &String, b: &String) -> (r: Ordering)
    ensures
        r == label_cmp(a@, b@),
{
    reveal(label_cmp);
    if comma_count_up_to_two(a.as_str()) >= 1 && comma_count_up_to_two(b.as_str()) >= 1 {
        let (a_city, a_country) = two_fields(a.as_str());
        let (b_city, b_country) = two_fields(b.as_str());
        let ac = trim(a_city.as_str());
        let bc = trim(b_city.as_str());
        let by_city = compare_text(ac.as_str(), bc.as_str());
        match by_city {
            Ordering::Equal => {
                let ak = trim(a_country.as_str());
                let bk = trim(b_country.as_str());
                compare_text(ak.as_str(), bk.as_str())
            },
            _ => by_city,
        }
    } else {
        compare_text(a.as_str(), b.as_str())
    }
}

/// Whether some label of the list reads `s`.
pub open spec fn holds_label(ls: Seq<String>, s: Seq<char>) -> bool {
    exists|i: int| 0 <= i < ls.len() && #[trigger] ls[i]@ == s
}

/// The first position of a label that reads `s` at or after `i`; the length
/// when there is none.
pub open spec fn position_from(ls: Seq<String>, s: Seq<char>, i: int) -> int
    decreases ls.len() - i,
{
    if i >= ls.len() || i < 0 {
        ls.len() as int
    } else if ls[i]@ == s {
        i
    } else {
        position_from(ls, s, i + 1)
    }
}

proof fn lemma_position_from(ls: Seq<String>, s: Seq<char>, i: int)
    requires
        0 <= i <= ls.len(),
    ensures
        i <= position_from(ls, s, i) <= ls.len(),
        position_from(ls, s, i) < ls.len() ==> ls[position_from(ls, s, i)]@ == s,
        forall|k: int| i <= k < position_from(ls, s, i) ==> ls[k]@ != s,
    decreases ls.len() - i,
{
    if i < ls.len() && ls[i]@ != s {
        lemma_position_from(ls, s, i + 1);
    }
}

/// The list after adding a label: unchanged when a label reads the same,
/// else with the label at the end.
pub open spec fn with_label(ls: Seq<String>, s: String) -> Seq<String> {
    if holds_label(ls, s@) {
        ls
    } else {
        ls.push(s)
    }
}

/// The list after removing a label: without the first label that reads `s`,
/// unchanged when none does.
pub open spec fn without_label(ls: Seq<String>, s: Seq<char>) -> Seq<String> {
    if position_from(ls, s, 0) < ls.len() {
        ls.remove(position_from(ls, s, 0))
    } else {
        ls
    }
}

/// `ordered` is a display order of `input`, and `others` its part after the
/// automatic label: the same labels as many times each, the automatic labels
/// first, then the rest with each label not after the next one.
pub open spec fn is_display_order(input: Seq<String>, ordered: Seq<String>, others: Seq<String>) -> bool {
    let k = ordered.len() - others.len();
    &&& ordered.to_multiset() == input.to_multiset()
    &&& 0 <= k
    &&& ordered.subrange(k, ordered.len() as int) == others
    &&& forall|i: int| 0 <= i < k ==> is_automatic(#[trigger] ordered[i]@)
    &&& forall|i: int| 0 <= i < others.len() ==> !is_automatic(#[trigger] others[i]@)
    &&& forall|i: int|
        0 <= i < others.len() - 1 ==> #[trigger] label_cmp(others[i]@, others[i + 1]@)
            != Ordering::Greater
}

/// Adding the same label a second time leaves the list as the first addition
/// left it.
pub proof fn lemma_add_idempotent(ls: Seq<String>, s: String)
    ensures
        with_label(with_label(ls, s), s) == with_label(ls, s),
        with_label(with_label(ls, s), s).len() == with_label(ls, s).len(),
{
    if !holds_label(ls, s@) {
        let l2 = ls.push(s);
        assert(l2[ls.len() as int]@ == s@);
        assert(holds_label(l2, s@));
    }
}

/// Inserts a label into an ordered list of non-automatic labels, after every
/// label that does not sort after it.
fn insert_in_order(others: &mut Vec<String>, label: String)
    requires
        !is_automatic(label@),
        forall|k: int| 0 <= k < old(others)@.len() ==> !is_automatic(#[trigger] old(others)@[k]@),
        forall|k: int|
            0 <= k < old(others)@.len() - 1 ==> #[trigger] label_cmp(old(others)@[k]@, old(others)@[k + 1]@)
                != Ordering::Greater,
    ensures
        final(others)@.to_multiset() == old(others)@.to_multiset().insert(label),
        forall|k: int| 0 <= k < final(others)@.len() ==> !is_automatic(#[trigger] final(others)@[k]@),
        forall|k: int|
            0 <= k < final(others)@.len() - 1 ==> #[trigger] label_cmp(final(others)@[k]@, final(others)@[k + 1]@)
                != Ordering::Greater,
{
    let mut p: usize = others.len();
    let mut moving = true;
    while moving
        invariant
            p <= others@.len(),
            p < others@.len() ==> label_cmp(others@[p as int]@, label@)
                == Ordering::Greater,
            !moving ==> (p == 0 || label_cmp(others@[p - 1]@, label@)
                != Ordering::Greater),
        decreases p + (if moving { 1int } else { 0int }),
    {
        if p == 0 {
            moving = false;
        } else {
            match compare_labels(&others[p - 1], &label) {
                Ordering::Greater => {
                    p = p - 1;
                },
                _ => {
                    moving = false;
                },
            }
        }
    }
    let ghost before = others@;
    proof {
        to_multiset_insert(before, p as int, label);
        if p < before.len() {
            lemma_label_antisym(before[p as int]@, label@);
        }
    }
    others.insert(p, label);
    proof {
        assert forall|k: int| 0 <= k < others@.len() - 1 implies #[trigger] label_cmp(others@[k]@, others@[k + 1]@) != Ordering::Greater by {
            if k < p - 1 {
                assert(others@[k] == before[k] && others@[k + 1] == before[k + 1]);
                assert(label_cmp(before[k]@, before[k + 1]@) != Ordering::Greater);
            } else if k == p - 1 {
                assert(others@[k] == before[k] && others@[k + 1] == label);
            } else if k == p {
                assert(others@[k] == label && others@[k + 1] == before[k]);
            } else {
                let j = k - 1;
                assert(others@[k] == before[j] && others@[k + 1] == before[j + 1]);
                assert(label_cmp(before[j]@, before[j + 1]@) != Ordering::Greater);
            }
        }
        assert forall|k: int| 0 <= k < others@.len() implies !is_automatic(
            #[trigger] others@[k]@,
        ) by {
            if k < p {
                assert(others@[k] == before[k]);
            } else if k > p {
                assert(others@[k] == before[k - 1]);
            }
        }
    }
}

/// The saved location labels.
#[derive(Debug, Clone, Default)]
pub struct LocationList {
    pub locations: Vec<String>,
}

impl LocationList {
    /// No two labels read the same.
    pub open spec fn wf(&self) -> bool {
        forall|i: int, j: int|
            0 <= i < j < self.locations@.len() ==> #[trigger] self.locations@[i]@
                != #[trigger] self.locations@[j]@
    }

    /// An empty list.
    pub fn new() -> (r: Self)
        ensures
            r.locations@.len() == 0,
            r.wf(),
    {
        LocationList { locations: Vec::new() }
    }

    fn find(&self, location: &str) -> (r: usize)
        ensures
            r == position_from(self.locations@, location@, 0),
    {
        proof {
            lemma_position_from(self.locations@, location@, 0);
        }
        let mut i: usize = 0;
        while i < self.locations.len()
            invariant
                i <= self.locations@.len(),
                position_from(self.locations@, location@, 0) == position_from(
                    self.locations@,
                    location@,
                    i as int,
                ),
            decreases self.locations.len() - i,
        {
            if crate::text::text_eq(self.locations[i].as_str(), location) {
                return i;
            }
            i = i + 1;
        }
        i
    }

    /// Adds a label unless one that reads the same is there; says whether the
    /// list changed (and so needs saving).
    pub fn add_location(&mut self, location: String) -> (added: bool)
        requires
            old(self).wf(),
        ensures
            final(self).wf(),
            added == !holds_label(old(self).locations@, location@),
            final(self).locations@ == with_label(old(self).locations@, location),
    {
        let i = self.find(location.as_str());
        proof {
            lemma_position_from(self.locations@, location@, 0);
        }
        if i < self.locations.len() {
            false
        } else {
            proof {
                assert(!holds_label(self.locations@, location@));
            }
            self.locations.push(location);
            true
        }
    }

    /// Removes the label that reads `location`, if there is one; says whether
    /// the list changed (and so needs saving).
    pub fn remove_location_by_name(&mut self, location: &str) -> (removed: bool)
        requires
            old(self).wf(),
        ensures
            final(self).wf(),
            removed == holds_label(old(self).locations@, location@),
            final(self).locations@ == without_label(old(self).locations@, location@),
    {
        let i = self.find(location);
        proof {
            lemma_position_from(self.locations@, location@, 0);
        }
        if i < self.locations.len() {
            let ghost before = self.locations@;
            self.locations.remove(i);
            proof {
                assert forall|a: int, b: int|
                    0 <= a < b < self.locations@.len() implies #[trigger] self.locations@[a]@
                    != #[trigger] self.locations@[b]@ by {
                    let a0 = if a < i { a } else { a + 1 };
                    let b0 = if b < i { b } else { b + 1 };
                    assert(self.locations@[a] == before[a0]);
                    assert(self.locations@[b] == before[b0]);
                }
            }
            true
        } else {
            false
        }
    }
    /// The labels in display order: the automatic label first, the rest by
    /// city, then country code; also the part after the automatic label.
    pub fn get_sorted_locations(&self) -> (r: (Vec<String>, Vec<String>))
        ensures
            is_display_order(self.locations@, r.0@, r.1@),
    {
        let mut autos: Vec<String> = Vec::new();
        let mut others: Vec<String> = Vec::new();
        let mut i: usize = 0;
        proof {
            autos@.to_multiset_ensures();
            others@.to_multiset_ensures();
            self.locations@.subrange(0, 0).to_multiset_ensures();
            assert(self.locations@.subrange(0, 0) =~= Seq::<String>::empty());
        }
        while i < self.locations.len()
            invariant
                i <= self.locations@.len(),
                autos@.to_multiset().add(others@.to_multiset()) == self.locations@.subrange(
                    0,
                    i as int,
                ).to_multiset(),
                forall|k: int| 0 <= k < autos@.len() ==> is_automatic(#[trigger] autos@[k]@),
                forall|k: int| 0 <= k < others@.len() ==> !is_automatic(#[trigger] others@[k]@),
                forall|k: int|
                    0 <= k < others@.len() - 1 ==> #[trigger] label_cmp(others@[k]@, others@[k + 1]@)
                        != Ordering::Greater,
            decreases self.locations.len() - i,
        {
            let label = self.locations[i].clone();
            proof {
                assert(self.locations@.subrange(0, i + 1) =~= self.locations@.subrange(
                    0,
                    i as int,
                ).push(label));
                to_multiset_build(self.locations@.subrange(0, i as int), label);
            }
            if crate::text::text_eq(label.as_str(), AUTOMATIC) {
                proof {
                    to_multiset_build(autos@, label);
                }
                autos.push(label);
            } else {
                insert_in_order(&mut others, label);
            }
            i = i + 1;
        }
        proof {
            assert(self.locations@.subrange(0, self.locations@.len() as int) =~= self.locations@);
            lemma_multiset_commutative(autos@, others@);
        }
        let ghost a = autos@;
        let mut ordered = autos;
        let mut rest = others.clone();
        ordered.append(&mut rest);
        proof {
            assert(ordered@ =~= a + others@);
            assert(ordered@.subrange(a.len() as int, ordered@.len() as int) =~= others@);
            assert forall|k: int| 0 <= k < a.len() implies is_automatic(#[trigger] ordered@[k]@) by {
                assert(ordered@[k] == a[k]);
            }
        }
        (ordered, others)
    }

    /// The labels in display order and the position of `target_location`
    /// among them, if it is there.
    pub fn get_sorted_locations_with_index(&self, target_location: &str) -> (r: (
        Vec<String>,
        Option<usize>,
    ))
        ensures
            exists|others: Seq<String>| is_display_order(self.locations@, r.0@, others),
            r.1 is Some == holds_label(r.0@, target_location@),
            r.1 is Some ==> r.1->0 == position_from(r.0@, target_location@, 0),
    {
        let (ordered, others) = self.get_sorted_locations();
        let list = LocationList { locations: ordered };
        let i = list.find(target_location);
        proof {
            lemma_position_from(list.locations@, target_location@, 0);
            if holds_label(list.locations@, target_location@) {
                let w = choose|w: int|
                    0 <= w < list.locations@.len() && #[trigger] list.locations@[w]@
                        == target_location@;
                assert(i <= w);
            }
        }
        let index = if i < list.locations.len() { Some(i) } else { None };
        let r = (list.locations, index);
        assert(is_display_order(self.locations@, r.0@, others@));
        r
    }
}

/// The bookmark list of a dashboard, with the label of a configured location.
#[derive(Debug, Clone, Default)]
pub struct LocationManager {
    pub location_list: LocationList,
}

/// The label of a configured location: the automatic label when none is
/// configured, else the location in normal form.
pub open spec fn configured_label(settings_location: Seq<char>) -> Seq<char> {
    if settings_location.len() == 0 {
        "Automatic"@
    } else {
        normalized_label(settings_location)
    }
}

impl LocationManager {
    /// A manager of a loaded list.
    pub fn new(location_list: LocationList) -> (r: Self)
        ensures
            r.location_list == location_list,
    {
        LocationManager { location_list }
    }

    /// The managed list.
    pub fn get_location_list(&self) -> (r: &LocationList)
        ensures
            *r == self.location_list,
    {
        &self.location_list
    }

    /// Adds a label unless one that reads the same is there; says whether the
    /// list changed.
    pub fn add_location(&mut self, location: String) -> (added: bool)
        requires
            old(self).location_list.wf(),
        ensures
            final(self).location_list.wf(),
            added == !holds_label(old(self).location_list.locations@, location@),
            final(self).location_list.locations@ == with_label(
                old(self).location_list.locations@,
                location,
            ),
    {
        self.location_list.add_location(location)
    }

    /// Removes the label that reads `location`, if any; says whether the list
    /// changed.
    pub fn remove_location_by_name(&mut self, location: &str) -> (removed: bool)
        requires
            old(self).location_list.wf(),
        ensures
            final(self).location_list.wf(),
            removed == holds_label(old(self).location_list.locations@, location@),
            final(self).location_list.locations@ == without_label(
                old(self).location_list.locations@,
                location@,
            ),
    {
        self.location_list.remove_location_by_name(location)
    }

    /// The label of the configured location.
    pub fn get_current_location_string(&self, settings_location: &str) -> (r: String)
        ensures
            r@ == configured_label(settings_location@),
    {
        proof {
            reveal_strlit("Automatic");
        }
        if settings_location.unicode_len() == 0 {
            String::from_str(AUTOMATIC)
        } else {
            LocationData::normalize_location_string(settings_location)
        }
    }

    /// Makes sure the list holds a label; says whether it was added.
    pub fn ensure_location_in_list(&mut self, location: String) -> (added: bool)
        requires
            old(self).location_list.wf(),
        ensures
            final(self).location_list.wf(),
            added == !holds_label(old(self).location_list.locations@, location@),
            final(self).location_list.locations@ == with_label(
                old(self).location_list.locations@,
                location,
            ),
    {
        self.location_list.add_location(location)
    }
}

} // verus!
