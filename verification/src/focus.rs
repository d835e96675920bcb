//! Keystroke routing: which input field, if any, currently owns keystrokes,
//! and the text buffer of every field.
//!
//! Buffers are kept as an insertion-ordered list of (field, text) entries in
//! which a later entry for a field shadows every earlier one — the same
//! last-entry-wins reading as the hit-test registry. Every edit appends the
//! field's new text, and the whole list is dropped on each mode transition,
//! so shadowed entries never outlive their mode. A field's buffer comes into
//! being lazily, empty, with the first keystroke directed at it.
use vstd::prelude::*;

verus! {

/// The focus state: the selected field, if any, and the text of every field
/// that has one.
#[verifier::ext_equal]
pub ghost struct FocusView {
    pub selected: Option<Seq<char>>,
    pub buffers: Map<Seq<char>, Seq<char>>,
}

/// The text of field `k` under `buffers`, where a field without a buffer
/// reads as empty.
pub open spec fn buffer_or_empty(buffers: Map<Seq<char>, Seq<char>>, k: Seq<char>) -> Seq<char> {
    if buffers.contains_key(k) {
        buffers[k]
    } else {
        Seq::empty()
    }
}

/// The value bound to `k` by the last entry for `k`, if any.
pub open spec fn assoc_get(s: Seq<(Seq<char>, Seq<char>)>, k: Seq<char>) -> Option<Seq<char>>
    decreases s.len(),
{
    if s.len() == 0 {
        None
    } else if s.last().0 == k {
        Some(s.last().1)
    } else {
        assoc_get(s.drop_last(), k)
    }
}

/// The entry list read as a map, later entries shadowing earlier ones.
pub open spec fn assoc_map(s: Seq<(Seq<char>, Seq<char>)>) -> Map<Seq<char>, Seq<char>>
    decreases s.len(),
{
    if s.len() == 0 {
        Map::empty()
    } else {
        assoc_map(s.drop_last()).insert(s.last().0, s.last().1)
    }
}

/// Looking a key up among the entries agrees with the map reading.
pub proof fn lemma_assoc_get_is_map(s: Seq<(Seq<char>, Seq<char>)>, k: Seq<char>)
    ensures
        match assoc_get(s, k) {
            Some(v) => assoc_map(s).contains_key(k) && assoc_map(s)[k] == v,
            None => !assoc_map(s).contains_key(k),
        },
    decreases s.len(),
{
    if s.len() > 0 {
        lemma_assoc_get_is_map(s.drop_last(), k);
    }
}

/// The focus model: `selected` owns keystrokes while it is some field.
pub struct FocusModel {
    selected: Option<String>,
    buffers: Vec<(String, String)>,
}

/// Appends one character to a text buffer.
/// Relies on `String::push`: it appends exactly the given character.
#[verifier::external_body]
fn push_char(s: &mut String, c: char)
    ensures
        final(s)@ == old(s)@.push(c),
{
    s.push(c);
}

/// Removes the last character of a text buffer, if there is one.
/// Relies on `String::pop`: it removes and returns the last character, or
/// returns `None` from an empty string.
#[verifier::external_body]
fn pop_char(s: &mut String) -> (r: Option<char>)
    ensures
        old(s)@.len() == 0 ==> final(s)@ == old(s)@ && r is None,
        old(s)@.len() > 0 ==> final(s)@ == old(s)@.drop_last() && r == Some(old(s)@.last()),
{
    s.pop()
}

impl View for FocusModel {
    type V = FocusView;

    closed spec fn view(&self) -> FocusView {
        FocusView {
            selected: match self.selected {
                Some(ref f) => Some(f@),
                None => None,
            },
            buffers: assoc_map(self.buffers@.map_values(|p: (String, String)| (p.0@, p.1@))),
        }
    }
}

impl FocusModel {
    /// The entry list as the specification sees it.
    closed spec fn entries(&self) -> Seq<(Seq<char>, Seq<char>)> {
        self.buffers@.map_values(|p: (String, String)| (p.0@, p.1@))
    }

    /// A fresh model: nothing selected, no buffers.
    pub fn new() -> (r: Self)
        ensures
            r@.selected is None,
            r@.buffers == Map::<Seq<char>, Seq<char>>::empty(),
    {
        let r = FocusModel { selected: None, buffers: Vec::new() };
        proof {
            assert(r.entries() =~= Seq::<(Seq<char>, Seq<char>)>::empty());
        }
        r
    }

    /// Gives the keystroke focus to `field`.
    pub fn select(&mut self, field: String)
        ensures
            final(self)@.selected == Some(field@),
            final(self)@.buffers == old(self)@.buffers,
    {
        self.selected = Some(field);
    }

    /// Takes the keystroke focus away from whatever held it.
    pub fn unselect(&mut self)
        ensures
            final(self)@.selected is None,
            final(self)@.buffers == old(self)@.buffers,
    {
        self.selected = None;
    }

    /// The field that owns keystrokes, if any.
    pub fn selected_field(&self) -> (r: Option<String>)
        ensures
            match r {
                Some(f) => self@.selected == Some(f@),
                None => self@.selected is None,
            },
    {
        match &self.selected {
            Some(f) => Some(f.clone()),
            None => None,
        }
    }

    /// Whether some field owns keystrokes.
    pub fn is_focused(&self) -> (r: bool)
        ensures
            r == (self@.selected is Some),
    {
        self.selected.is_some()
    }

    /// The buffer of `field`, or `None` if no keystroke has created one.
    pub fn buffer_of(&self, field: &String) -> (r: Option<String>)
        ensures
            match r {
                Some(v) => self@.buffers.contains_key(field@) && v@ == self@.buffers[field@],
                None => !self@.buffers.contains_key(field@),
            },
    {
        let r = self.find_last(field);
        proof {
            lemma_assoc_get_is_map(self.entries(), field@);
        }
        r
    }

    /// The last entry for `field`, if any.
    fn find_last(&self, field: &String) -> (r: Option<String>)
        ensures
            match r {
                Some(v) => assoc_get(self.entries(), field@) == Some(v@),
                None => assoc_get(self.entries(), field@) is None,
            },
    {
        let mut idx: usize = self.buffers.len();
        proof {
            assert(self.entries().take(idx as int) =~= self.entries());
        }
        while idx > 0
            invariant
                idx <= self.buffers.len(),
                assoc_get(self.entries(), field@) == assoc_get(
                    self.entries().take(idx as int),
                    field@,
                ),
            decreases idx,
        {
            idx = idx - 1;
            if self.buffers[idx].0 == *field {
                proof {
                    assert(self.entries().take(idx + 1).last() == self.entries()[idx as int]);
                }
                return Some(self.buffers[idx].1.clone());
            }
            proof {
                assert(self.entries().take(idx + 1).drop_last() =~= self.entries().take(
                    idx as int,
                ));
            }
        }
        proof {
            assert(self.entries().take(0) =~= Seq::<(Seq<char>, Seq<char>)>::empty());
        }
        None
    }

    /// Appends an entry binding `field` to `text`, shadowing earlier entries.
    fn put(&mut self, field: String, text: String)
        ensures
            final(self)@.buffers == old(self)@.buffers.insert(field@, text@),
            final(self)@.selected == old(self)@.selected,
    {
        let ghost prev = self.entries();
        let ghost pair = (field@, text@);
        self.buffers.push((field, text));
        proof {
            assert(self.entries() =~= prev.push(pair));
            assert(self.entries().drop_last() =~= prev);
        }
    }

    /// The current text of `field`, the empty string if it has no buffer yet.
    pub fn current_text(&self, field: &String) -> (r: String)
        ensures
            r@ == buffer_or_empty(self@.buffers, field@),
    {
        match self.buffer_of(field) {
            Some(v) => v,
            None => String::new(),
        }
    }

    /// Makes sure `field` has a buffer, creating it empty if absent; its
    /// text is untouched.
    pub fn touch(&mut self, field: &String)
        ensures
            final(self)@.selected == old(self)@.selected,
            final(self)@.buffers == old(self)@.buffers.insert(
                field@,
                buffer_or_empty(old(self)@.buffers, field@),
            ),
    {
        let text = self.current_text(field);
        self.put(field.clone(), text);
    }

    /// Appends `c` to the buffer of `field`, creating the buffer first if
    /// absent.
    pub fn append_char(&mut self, field: &String, c: char)
        ensures
            final(self)@.selected == old(self)@.selected,
            final(self)@.buffers == old(self)@.buffers.insert(
                field@,
                buffer_or_empty(old(self)@.buffers, field@).push(c),
            ),
    {
        let mut text = self.current_text(field);
        push_char(&mut text, c);
        self.put(field.clone(), text);
    }

    /// Removes the last character of the buffer of `field`, creating the
    /// buffer (empty) if absent; on an empty buffer the text stays empty.
    pub fn backspace(&mut self, field: &String)
        ensures
            final(self)@.selected == old(self)@.selected,
            final(self)@.buffers == old(self)@.buffers.insert(
                field@,
                if buffer_or_empty(old(self)@.buffers, field@).len() > 0 {
                    buffer_or_empty(old(self)@.buffers, field@).drop_last()
                } else {
                    Seq::empty()
                },
            ),
    {
        let mut text = self.current_text(field);
        pop_char(&mut text);
        proof {
            if buffer_or_empty(old(self)@.buffers, field@).len() == 0 {
                assert(text@ =~= Seq::<char>::empty());
            }
        }
        self.put(field.clone(), text);
    }

    /// Drops the selection and every field buffer.
    pub fn clear(&mut self)
        ensures
            final(self)@.selected is None,
            final(self)@.buffers == Map::<Seq<char>, Seq<char>>::empty(),
    {
        self.selected = None;
        self.buffers.clear();
        proof {
            assert(self.entries() =~= Seq::<(Seq<char>, Seq<char>)>::empty());
        }
    }
}

} // verus!
