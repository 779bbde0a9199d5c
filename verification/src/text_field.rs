//! The editing state of a single-line text field.
//!
//! The text is held as a `String` and the cursor as a byte offset into its
//! UTF-8 encoding. Insertion moves the cursor by one byte whatever the width of
//! the inserted character, and deletion removes the whole character that
//! starts at the given offset; an operation that would cut a character in
//! two is outside every contract below.
use vstd::prelude::*;
use vstd::utf8::*;

verus! {

broadcast use vstd::string::group_string_axioms;

/// Where a text field stands with respect to keyboard input.
#[derive(Debug, Clone, Copy, PartialEq, Eq, Structural)]
pub enum InputState {
    Idle,
    Focused,
    Editing,
    Disabled,
}

/// The abstract state of a [`TextField`].
pub struct TextFieldView {
    pub text: Seq<char>,
    pub placeholder: Seq<char>,
    pub state: InputState,
    pub cursor: nat,
    pub max_length: Option<nat>,
}

/// The UTF-8 bytes of a text.
pub open spec fn utf8(text: Seq<char>) -> Seq<u8> {
    encode_utf8(text)
}

/// Whether a text field with this state refuses further characters.
pub open spec fn is_full(v: TextFieldView) -> bool {
    match v.max_length {
        Some(max) => utf8(v.text).len() >= max,
        None => false,
    }
}

/// The bytes left after the character that starts at byte `at` is removed.
pub open spec fn without_char_at(bytes: Seq<u8>, at: int) -> Seq<u8> {
    bytes.take(at) + pop_first_scalar(bytes.skip(at))
}

/// The bytes after `ch` is put at byte `at`.
pub open spec fn with_char_at(bytes: Seq<u8>, at: int, ch: char) -> Seq<u8> {
    bytes.take(at) + utf8(seq![ch]) + bytes.skip(at)
}

/// Every field but the text and the cursor is the same in both states.
pub open spec fn same_settings(a: TextFieldView, b: TextFieldView) -> bool {
    &&& a.placeholder == b.placeholder
    &&& a.state == b.state
    &&& a.max_length == b.max_length
}

/// `new` is `old` with `ch` put at the cursor and the cursor moved one byte on.
pub open spec fn inserted(old: TextFieldView, new: TextFieldView, ch: char) -> bool {
    &&& utf8(new.text) == with_char_at(utf8(old.text), old.cursor as int, ch)
    &&& new.cursor == old.cursor + 1
    &&& same_settings(old, new)
}

/// `new` is `old` with the cursor moved one byte back and the character that
/// starts there removed.
pub open spec fn erased_before_cursor(old: TextFieldView, new: TextFieldView) -> bool {
    &&& utf8(new.text) == without_char_at(utf8(old.text), old.cursor - 1)
    &&& new.cursor == old.cursor - 1
    &&& same_settings(old, new)
}

/// `new` is `old` with the character that starts at the cursor removed.
pub open spec fn erased_at_cursor(old: TextFieldView, new: TextFieldView) -> bool {
    &&& utf8(new.text) == without_char_at(utf8(old.text), old.cursor as int)
    &&& new.cursor == old.cursor
    &&& same_settings(old, new)
}

/// `String::insert`: puts the UTF-8 encoding of `ch` at byte offset `idx`,
/// which must start a character or be the end (else the call panics).
#[verifier::external_body]
fn string_insert(s: &mut String, idx: usize, ch: char)
    requires
        is_char_boundary(utf8(old(s)@), idx as int),
    ensures
        utf8(final(s)@) == with_char_at(utf8(old(s)@), idx as int, ch),
{
    s.insert(idx, ch)
}

/// `String::remove`: takes out, and returns, the character whose encoding
/// starts at byte offset `idx`, which must start a character before the end
/// (else the call panics).
#[verifier::external_body]
fn string_remove(s: &mut String, idx: usize) -> (ch: char)
    requires
        is_char_boundary(utf8(old(s)@), idx as int),
        idx < utf8(old(s)@).len(),
    ensures
        utf8(final(s)@) == without_char_at(utf8(old(s)@), idx as int),
        take_first_scalar(utf8(old(s)@).skip(idx as int)) == utf8(seq![ch]),
{
    s.remove(idx)
}

/// The first character encoded in a byte sequence that starts with the
/// encoding of `ch` is `ch`, whatever follows it.
pub proof fn lemma_first_scalar_of_encoded(ch: char, rest: Seq<u8>)
    ensures
        length_of_first_scalar(utf8(seq![ch]) + rest) == utf8(seq![ch]).len(),
        pop_first_scalar(utf8(seq![ch]) + rest) == rest,
        valid_first_scalar(utf8(seq![ch]) + rest),
        1 <= utf8(seq![ch]).len() <= 4,
{
    let e = utf8(seq![ch]);
    encode_utf8_first_scalar(seq![ch]);
    assert(seq![ch].drop_first() =~= Seq::<char>::empty());
    assert(encode_utf8(Seq::<char>::empty()) =~= Seq::<u8>::empty());
    assert(e =~= encode_scalar(ch as u32));
    let x = e + rest;
    assert(x[0] == e[0]);
    assert(valid_first_scalar(e));
    if e.len() >= 2 { assert(x[1] == e[1]); }
    if e.len() >= 3 { assert(x[2] == e[2]); }
    if e.len() >= 4 { assert(x[3] == e[3]); }
    assert(pop_first_scalar(x) =~= rest);
}

/// Removing a character keeps the bytes valid UTF-8 and shortens them by the
/// width of that character.
proof fn lemma_remove_shortens(bytes: Seq<u8>, at: int)
    requires
        valid_utf8(bytes),
        is_char_boundary(bytes, at),
        0 <= at < bytes.len(),
    ensures
        valid_first_scalar(bytes.skip(at)),
        without_char_at(bytes, at).len() == bytes.len() - length_of_first_scalar(bytes.skip(at)),
        1 <= length_of_first_scalar(bytes.skip(at)) <= bytes.len() - at,
{
    valid_utf8_split(bytes, at);
    assert(bytes.skip(at) =~= bytes.subrange(at, bytes.len() as int));
    assert(bytes.skip(at).len() > 0);
}

/// The editing state of a text field: its text, its placeholder, where the
/// cursor stands, an optional limit on the length, and its input state.
pub struct TextField {
    value: String,
    placeholder: String,
    state: InputState,
    cursor_position: usize,
    max_length: Option<usize>,
}

impl View for TextField {
    type V = TextFieldView;

    closed spec fn view(&self) -> TextFieldView {
        TextFieldView {
            text: self.value@,
            placeholder: self.placeholder@,
            state: self.state,
            cursor: self.cursor_position as nat,
            max_length: match self.max_length {
                Some(m) => Some(m as nat),
                None => None,
            },
        }
    }
}

impl TextField {
    /// The cursor never stands past the end of the text, whose encoding fits
    /// in memory. Every constructor establishes this and every method keeps it.
    pub open spec fn wf(&self) -> bool {
        &&& self.bytes().len() <= usize::MAX
        &&& self@.cursor <= self.bytes().len()
    }

    /// The bytes of the text.
    pub open spec fn bytes(&self) -> Seq<u8> {
        utf8(self@.text)
    }

    /// The bytes of every text field are valid UTF-8, which starts and ends
    /// on a character boundary.
    pub proof fn lemma_bytes_valid(&self)
        ensures
            valid_utf8(self.bytes()),
            is_char_boundary(self.bytes(), 0),
            is_char_boundary(self.bytes(), self.bytes().len() as int),
    {
        encode_utf8_valid_utf8(self@.text);
        is_char_boundary_start_end_of_seq(self.bytes());
    }

    /// An empty, idle field with the given placeholder and no length limit.
    pub fn new(placeholder: &str) -> (r: Self)
        ensures
            r@ == (TextFieldView {
                text: Seq::empty(),
                placeholder: placeholder@,
                state: InputState::Idle,
                cursor: 0,
                max_length: None,
            }),
            r.wf(),
    {
        let value = String::new();
        assert(utf8(value@) =~= Seq::<u8>::empty());
        TextField {
            value,
            placeholder: placeholder.to_string(),
            state: InputState::Idle,
            cursor_position: 0,
            max_length: None,
        }
    }

    /// The same field holding `val`, with the cursor at its end.
    pub fn value(self, val: &str) -> (r: Self)
        requires
            utf8(val@).len() <= usize::MAX,
        ensures
            r@ == (TextFieldView { text: val@, cursor: utf8(val@).len(), ..self@ }),
            r.wf(),
    {
        let mut s = self;
        s.set_text(val);
        s
    }

    /// The same field, refusing characters once the text has `len` bytes.
    pub fn max_length(self, len: usize) -> (r: Self)
        ensures
            r@ == (TextFieldView { max_length: Some(len as nat), ..self@ }),
            self.wf() ==> r.wf(),
    {
        let mut s = self;
        s.max_length = Some(len);
        s
    }

    /// The text.
    pub fn text(&self) -> (r: &str)
        ensures
            r@ == self@.text,
    {
        self.value.as_str()
    }

    /// The placeholder shown while the text is empty.
    pub fn placeholder(&self) -> (r: &str)
        ensures
            r@ == self@.placeholder,
    {
        self.placeholder.as_str()
    }

    /// The length limit, in bytes, if there is one.
    pub fn length_limit(&self) -> (r: Option<usize>)
        ensures
            match r {
                Some(m) => self@.max_length == Some(m as nat),
                None => self@.max_length is None,
            },
    {
        self.max_length
    }

    /// The input state.
    pub fn state(&self) -> (r: InputState)
        ensures
            r == self@.state,
    {
        self.state
    }

    /// The cursor, as a byte offset into the text.
    pub fn cursor_position(&self) -> (r: usize)
        ensures
            r == self@.cursor,
    {
        self.cursor_position
    }

    /// Whether the text is empty.
    pub fn is_empty(&self) -> (r: bool)
        ensures
            r == (self@.text.len() == 0),
    {
        self.value.as_str().is_empty()
    }

    /// The length of the text in bytes.
    fn byte_len(&self) -> (r: usize)
        requires
            self.wf(),
        ensures
            r == self.bytes().len(),
    {
            self.value.as_str().len()
    }

    /// Types `ch` at the cursor unless the text has reached its length
    /// limit; answers whether the text changed (and listeners are due).
    pub fn insert_char(&mut self, ch: char) -> (changed: bool)
        requires
            old(self).wf(),
            !is_full(old(self)@) ==> is_char_boundary(old(self).bytes(), old(self)@.cursor as int),
            !is_full(old(self)@) ==> old(self).bytes().len() + 4 <= usize::MAX,
        ensures
            final(self).wf(),
            changed == !is_full(old(self)@),
            changed ==> inserted(old(self)@, final(self)@, ch),
            !changed ==> final(self)@ == old(self)@,
    {
        match self.max_length {
            Some(max) => {
                if self.byte_len() >= max {
                    return false;
                }
            },
            None => {},
        }
        let ghost before = self.bytes();
        let at = self.cursor_position;
        string_insert(&mut self.value, at, ch);
        proof {
            lemma_first_scalar_of_encoded(ch, before.skip(at as int));
        }
        assert(self.bytes().len() == before.len() + utf8(seq![ch]).len());
        self.cursor_position = at + 1;
        true
    }

    /// Removes the character before the cursor and moves the cursor back one
    /// byte; answers whether the text changed (false at the start).
    pub fn backspace(&mut self) -> (changed: bool)
        requires
            old(self).wf(),
            old(self)@.cursor > 0 ==> is_char_boundary(old(self).bytes(), old(self)@.cursor - 1),
        ensures
            final(self).wf(),
            changed == (old(self)@.cursor > 0),
            changed ==> erased_before_cursor(old(self)@, final(self)@),
            !changed ==> final(self)@ == old(self)@,
    {
        if self.cursor_position > 0 {
            let ghost before = self.bytes();
            proof {
                self.lemma_bytes_valid();
                lemma_remove_shortens(before, self.cursor_position - 1);
            }
            let at = self.cursor_position - 1;
            self.cursor_position = at;
            string_remove(&mut self.value, at);
            true
        } else {
            false
        }
    }

    /// Removes the character that starts at the cursor; answers whether the
    /// text changed (false at the end).
    pub fn delete(&mut self) -> (changed: bool)
        requires
            old(self).wf(),
            old(self)@.cursor < old(self).bytes().len() ==> is_char_boundary(
                old(self).bytes(),
                old(self)@.cursor as int,
            ),
        ensures
            final(self).wf(),
            changed == (old(self)@.cursor < old(self).bytes().len()),
            changed ==> erased_at_cursor(old(self)@, final(self)@),
            !changed ==> final(self)@ == old(self)@,
    {
        let len = self.byte_len();
        if self.cursor_position < len {
            let ghost before = self.bytes();
            proof {
                self.lemma_bytes_valid();
                lemma_remove_shortens(before, self.cursor_position as int);
            }
            let at = self.cursor_position;
            string_remove(&mut self.value, at);
            true
        } else {
            false
        }
    }

    /// Moves the cursor one byte back, unless it is at the start.
    pub fn move_cursor_left(&mut self)
        requires
            old(self).wf(),
        ensures
            final(self).wf(),
            final(self)@ == (TextFieldView {
                cursor: if old(self)@.cursor > 0 { (old(self)@.cursor - 1) as nat } else { 0 },
                ..old(self)@
            }),
    {
        if self.cursor_position > 0 {
            self.cursor_position = self.cursor_position - 1;
        }
    }

    /// Moves the cursor one byte on, unless it is at the end.
    pub fn move_cursor_right(&mut self)
        requires
            old(self).wf(),
        ensures
            final(self).wf(),
            final(self)@ == (TextFieldView {
                cursor: if old(self)@.cursor < old(self).bytes().len() {
                    old(self)@.cursor + 1
                } else {
                    old(self)@.cursor
                },
                ..old(self)@
            }),
    {
        let len = self.byte_len();
        if self.cursor_position < len {
            self.cursor_position = self.cursor_position + 1;
        }
    }

    /// Moves the cursor to the start of the text.
    pub fn move_cursor_home(&mut self)
        requires
            old(self).wf(),
        ensures
            final(self).wf(),
            final(self)@ == (TextFieldView { cursor: 0, ..old(self)@ }),
    {
        self.cursor_position = 0;
    }

    /// Moves the cursor to the end of the text.
    pub fn move_cursor_end(&mut self)
        requires
            old(self).wf(),
        ensures
            final(self).wf(),
            final(self)@ == (TextFieldView { cursor: old(self).bytes().len(), ..old(self)@ }),
    {
        self.cursor_position = self.byte_len();
    }

    /// Gives the field keyboard focus.
    pub fn focus(&mut self)
        ensures
            final(self)@ == (TextFieldView { state: InputState::Focused, ..old(self)@ }),
            old(self).wf() ==> final(self).wf(),
    {
        self.state = InputState::Focused;
    }

    /// Takes keyboard focus away from the field.
    pub fn blur(&mut self)
        ensures
            final(self)@ == (TextFieldView { state: InputState::Idle, ..old(self)@ }),
            old(self).wf() ==> final(self).wf(),
    {
        self.state = InputState::Idle;
    }

    /// Disables the field when `disabled` holds; otherwise leaves it as it is.
    pub fn set_disabled(&mut self, disabled: bool)
        ensures
            disabled ==> final(self)@ == (TextFieldView { state: InputState::Disabled, ..old(self)@ }),
            !disabled ==> final(self)@ == old(self)@,
            old(self).wf() ==> final(self).wf(),
    {
        if disabled {
            self.state = InputState::Disabled;
        }
    }

    /// Whether the field is disabled.
    pub fn is_disabled(&self) -> (r: bool)
        ensures
            r == (self@.state == InputState::Disabled),
    {
        self.state == InputState::Disabled
    }

    /// Replaces the text and puts the cursor at its end.
    pub fn set_text(&mut self, text: &str)
        requires
            utf8(text@).len() <= usize::MAX,
        ensures
            final(self)@ == (TextFieldView { text: text@, cursor: utf8(text@).len(), ..old(self)@ }),
            final(self).wf(),
    {
        let len = text.len();
        self.cursor_position = 0;
        self.value = text.to_string();
        self.cursor_position = len;
    }
}

/// The text is determined by its bytes.
proof fn lemma_utf8_injective(a: Seq<char>, b: Seq<char>)
    requires
        utf8(a) == utf8(b),
    ensures
        a == b,
{
    encode_utf8_decode_utf8(a);
    encode_utf8_decode_utf8(b);
}

/// Backspace right after a character was typed takes the field back to
/// where it was: the cursor ends one byte on from where the character was
/// typed, that position starts a character (so backspace is allowed), and
/// erasing before it restores text and cursor.
pub proof fn law_backspace_undoes_insert(t0: TextFieldView, t1: TextFieldView, t2: TextFieldView, ch: char)
    requires
        t0.cursor <= utf8(t0.text).len(),
        is_char_boundary(utf8(t0.text), t0.cursor as int),
        inserted(t0, t1, ch),
    ensures
        t1.cursor > 0,
        is_char_boundary(utf8(t1.text), t1.cursor - 1),
        erased_before_cursor(t1, t2) ==> t2 == t0,
{
    let b = utf8(t0.text);
    let c = t0.cursor as int;
    let x = utf8(t1.text);
    let e = utf8(seq![ch]);
    lemma_first_scalar_of_encoded(ch, b.skip(c));
    encode_utf8_first_scalar(seq![ch]);
    assert(seq![ch].drop_first() =~= Seq::<char>::empty());
    assert(encode_utf8(Seq::<char>::empty()) =~= Seq::<u8>::empty());
    assert(e =~= encode_scalar(ch as u32));
    assert(valid_first_scalar(e));
    assert(x[c] == e[0]);
    assert(!is_continuation_byte(x[c]));
    encode_utf8_valid_utf8(t1.text);
    is_char_boundary_iff_not_is_continuation_byte(x, c);
    assert(x.take(c) =~= b.take(c));
    assert(x.skip(c) =~= e + b.skip(c));
    assert(without_char_at(x, c) =~= b);
    if erased_before_cursor(t1, t2) {
        lemma_utf8_injective(t2.text, t0.text);
    }
}

/// Typing a one-byte character into a field with a length limit that the
/// text has not exceeded leaves the text within the limit.
pub proof fn law_insert_keeps_limit(t0: TextFieldView, t1: TextFieldView, ch: char, max: nat)
    requires
        t0.max_length == Some(max),
        t0.cursor <= utf8(t0.text).len(),
        !is_full(t0),
        (ch as u32) < 0x80,
        inserted(t0, t1, ch),
    ensures
        utf8(t1.text).len() <= max,
{
    lemma_first_scalar_of_encoded(ch, Seq::<u8>::empty());
    encode_utf8_first_scalar(seq![ch]);
    assert(seq![ch].drop_first() =~= Seq::<char>::empty());
    assert(encode_utf8(Seq::<char>::empty()) =~= Seq::<u8>::empty());
    assert(utf8(seq![ch]) =~= encode_scalar(ch as u32));
}

} // verus!
