//! Events whose date is written with a fixed marker in front of it.

use vstd::prelude::*;

verus! {

/// The marker written in front of an event's date.
pub open spec fn date_marker() -> Seq<char> {
    "Date: "@
}

/// The external text of a date: the marker, then the date.
pub open spec fn date_external(date: Seq<char>) -> Seq<char> {
    date_marker() + date
}

/// Whether `s` starts with `pre`.
pub open spec fn starts_with(s: Seq<char>, pre: Seq<char>) -> bool {
    pre.len() <= s.len() && s.subrange(0, pre.len() as int) == pre
}

/// The date held in an external text: the text after the marker, or the
/// whole text unchanged when it does not start with the marker.
pub open spec fn date_internal(text: Seq<char>) -> Seq<char> {
    if starts_with(text, date_marker()) {
        text.subrange(date_marker().len() as int, text.len() as int)
    } else {
        text
    }
}

/// Writing a date and reading it back gives the date unchanged, whatever
/// the date holds, since the written text always starts with the marker.
pub proof fn lemma_date_round_trip(date: Seq<char>)
    ensures
        starts_with(date_external(date), date_marker()),
        date_internal(date_external(date)) == date,
{
    let ext = date_external(date);
    assert(ext.subrange(0, date_marker().len() as int) =~= date_marker());
    assert(ext.subrange(date_marker().len() as int, ext.len() as int) =~= date);
}

/// Whether the text starts with the date marker.
pub fn has_date_marker(data: &str) -> (r: bool)
    ensures
        r == starts_with(data@, date_marker()),
{
    let marker: &str = "Date: ";
    proof {
        reveal_strlit("Date: ");
    }
    let n: usize = data.unicode_len();
    let m: usize = marker.unicode_len();
    if n < m {
        return false;
    }
    let mut i: usize = 0;
    while i < m
        invariant
            m == marker@.len(),
            marker@ == date_marker(),
            m <= n,
            n == data@.len(),
            0 <= i <= m,
            forall|j: int| 0 <= j < i ==> data@[j] == marker@[j],
        decreases m - i,
    {
        if data.get_char(i) != marker.get_char(i) {
            assert(data@.subrange(0, m as int)[i as int] != marker@[i as int]);
            return false;
        }
        i = i + 1;
    }
    assert(data@.subrange(0, m as int) =~= marker@);
    true
}

/// The external text of a date: the marker followed by the date.
pub fn serialize_date(date: &str) -> (r: String)
    ensures
        r@ == date_external(date@),
{
    proof {
        reveal_strlit("Date: ");
    }
    let mut r = String::from_str("Date: ");
    r.append(date);
    r
}

/// The date held in an external text: what follows the marker, or the text
/// itself when the marker is missing.
pub fn deserialize_date(data: &str) -> (r: String)
    ensures
        r@ == date_internal(data@),
{
    proof {
        reveal_strlit("Date: ");
    }
    if has_date_marker(data) {
        let n: usize = data.unicode_len();
        let rest: &str = data.substring_char(6, n);
        String::from_str(rest)
    } else {
        String::from_str(data)
    }
}

/// A named event on a date.
#[derive(Clone, Debug)]
pub struct Event {
    pub name: String,
    pub date: String,
}

/// An event as it is written out: the date carries the marker.
#[derive(Clone, Debug)]
pub struct EventWire {
    pub name: String,
    pub date: String,
}

impl Event {
    /// The external form of the event; its date reads back unchanged.
    pub fn to_wire(&self) -> (w: EventWire)
        ensures
            w.name@ == self.name@,
            w.date@ == date_external(self.date@),
            date_internal(w.date@) == self.date@,
    {
        proof {
            lemma_date_round_trip(self.date@);
        }
        EventWire { name: self.name.clone(), date: serialize_date(self.date.as_str()) }
    }

    /// The event that an external form holds.
    pub fn from_wire(w: &EventWire) -> (e: Event)
        ensures
            e.name@ == w.name@,
            e.date@ == date_internal(w.date@),
    {
        Event { name: w.name.clone(), date: deserialize_date(w.date.as_str()) }
    }
}

} // verus!
