//! Loosely typed settings as they arrive from outside: a list of named
//! values, each of one of a few shapes.

use vstd::prelude::*;
use crate::registry::view_all;
use crate::text::str_eq;

verus! {

/// One element of a list-valued setting.
#[derive(Debug)]
pub enum SettingItem {
    /// A text.
    Str(String),
    /// Anything that is not a text.
    Other,
}

/// A `SettingItem` with its text as a character sequence.
pub enum SettingItemView {
    Str(Seq<char>),
    Other,
}

impl View for SettingItem {
    type V = SettingItemView;

    open spec fn view(&self) -> SettingItemView {
        match self {
            SettingItem::Str(s) => SettingItemView::Str(s@),
            SettingItem::Other => SettingItemView::Other,
        }
    }
}

impl Clone for SettingItem {
    fn clone(&self) -> (r: Self)
        ensures
            r@ == self@,
    {
        match self {
            SettingItem::Str(s) => SettingItem::Str(s.clone()),
            SettingItem::Other => SettingItem::Other,
        }
    }
}

/// The value of one setting.
#[derive(Debug)]
pub enum SettingValue {
    /// A truth value.
    Bool(bool),
    /// An unsigned 32-bit number.
    U32(u32),
    /// A non-negative whole number of up to 64 bits.
    U64(u64),
    /// A text.
    Str(String),
    /// A list.
    List(Vec<SettingItem>),
    /// A value of any other shape.
    Other,
}

/// A `SettingValue` with its texts as character sequences.
pub enum SettingValueView {
    Bool(bool),
    U32(u32),
    U64(u64),
    Str(Seq<char>),
    List(Seq<SettingItemView>),
    Other,
}

impl View for SettingValue {
    type V = SettingValueView;

    open spec fn view(&self) -> SettingValueView {
        match self {
            SettingValue::Bool(b) => SettingValueView::Bool(*b),
            SettingValue::U32(n) => SettingValueView::U32(*n),
            SettingValue::U64(n) => SettingValueView::U64(*n),
            SettingValue::Str(s) => SettingValueView::Str(s@),
            SettingValue::List(items) => SettingValueView::List(view_all(items@)),
            SettingValue::Other => SettingValueView::Other,
        }
    }
}

impl Clone for SettingValue {
    fn clone(&self) -> (r: Self)
        ensures
            r@ == self@,
    {
        match self {
            SettingValue::Bool(b) => SettingValue::Bool(*b),
            SettingValue::U32(n) => SettingValue::U32(*n),
            SettingValue::U64(n) => SettingValue::U64(*n),
            SettingValue::Str(s) => SettingValue::Str(s.clone()),
            SettingValue::List(items) => {
                let mut out: Vec<SettingItem> = Vec::new();
                let mut i: usize = 0;
                while i < items.len()
                    invariant
                        i <= items.len(),
                        out@.len() == i,
                        forall|j: int| 0 <= j < i ==> out@[j]@ == items@[j]@,
                    decreases items.len() - i,
                {
                    out.push(items[i].clone());
                    i += 1;
                }
                assert(view_all(out@) =~= view_all(items@));
                SettingValue::List(out)
            },
            SettingValue::Other => SettingValue::Other,
        }
    }
}

/// A named value.
#[derive(Debug)]
pub struct Setting {
    pub key: String,
    pub value: SettingValue,
}

/// A `Setting` with its texts as character sequences.
pub struct SettingView {
    pub key: Seq<char>,
    pub value: SettingValueView,
}

impl View for Setting {
    type V = SettingView;

    open spec fn view(&self) -> SettingView {
        SettingView { key: self.key@, value: self.value@ }
    }
}

/// The first value that `entries` holds under `key`.
pub open spec fn value_in(entries: Seq<SettingView>, key: Seq<char>) -> Option<SettingValueView>
    decreases entries.len(),
{
    if entries.len() == 0 {
        None
    } else if entries[0].key == key {
        Some(entries[0].value)
    } else {
        value_in(entries.drop_first(), key)
    }
}

/// A bag of named values. Where a name occurs more than once, the first
/// occurrence counts.
#[derive(Debug)]
pub struct Settings {
    pub entries: Vec<Setting>,
}

impl View for Settings {
    type V = Seq<SettingView>;

    open spec fn view(&self) -> Seq<SettingView> {
        view_all(self.entries@)
    }
}

impl Clone for Settings {
    fn clone(&self) -> (r: Self)
        ensures
            r@ == self@,
    {
        let mut out: Vec<Setting> = Vec::new();
        let mut i: usize = 0;
        while i < self.entries.len()
            invariant
                i <= self.entries.len(),
                out@.len() == i,
                forall|j: int| 0 <= j < i ==> out@[j]@ == self.entries@[j]@,
            decreases self.entries.len() - i,
        {
            out.push(
                Setting { key: self.entries[i].key.clone(), value: self.entries[i].value.clone() },
            );
            i += 1;
        }
        assert(view_all(out@) =~= view_all(self.entries@));
        Settings { entries: out }
    }
}

impl Settings {
    /// The value under `key`, if there is one.
    pub open spec fn value(&self, key: Seq<char>) -> Option<SettingValueView> {
        value_in(self@, key)
    }

    /// An empty bag.
    pub fn new() -> (r: Self)
        ensures
            r@ == Seq::<SettingView>::empty(),
    {
        let r = Settings { entries: Vec::new() };
        assert(r@ =~= Seq::<SettingView>::empty());
        r
    }

    /// Adds a named value at the end.
    pub fn push(&mut self, key: String, value: SettingValue)
        ensures
            final(self)@ == old(self)@.push(SettingView { key: key@, value: value@ }),
    {
        self.entries.push(Setting { key, value });
        assert(self@ =~= old(self)@.push(SettingView { key: key@, value: value@ }));
    }

    /// The value under `key`, if there is one.
    pub fn get(&self, key: &str) -> (r: Option<&SettingValue>)
        ensures
            match r {
                Some(v) => self.value(key@) == Some(v@),
                None => self.value(key@) is None,
            },
    {
        let mut i: usize = 0;
        let ghost all = self@;
        assert(all.subrange(0, all.len() as int) =~= all);
        while i < self.entries.len()
            invariant
                i <= self.entries.len(),
                all == self@,
                value_in(all.subrange(i as int, all.len() as int), key@) == value_in(all, key@),
            decreases self.entries.len() - i,
        {
            let ghost rest = all.subrange(i as int, all.len() as int);
            assert(rest[0] == self.entries@[i as int]@);
            if str_eq(self.entries[i].key.as_str(), key) {
                return Some(&self.entries[i].value);
            }
            assert(rest.drop_first() =~= all.subrange(i + 1, all.len() as int));
            i += 1;
        }
        None
    }
}

} // verus!
