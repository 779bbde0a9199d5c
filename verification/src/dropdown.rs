//! The selection logic of a drop-down list.
use vstd::prelude::*;

verus! {

broadcast use vstd::string::group_string_axioms;

/// A drop-down list: its options, the index chosen (if any) and the
/// placeholder shown while nothing valid is chosen.
pub struct Dropdown {
    options: Vec<String>,
    selected: Option<usize>,
    placeholder: Option<String>,
}

/// The abstract state of a [`Dropdown`].
pub struct DropdownView {
    pub options: Seq<Seq<char>>,
    pub selected: Option<usize>,
    pub placeholder: Option<Seq<char>>,
}

impl DropdownView {
    /// The same state with the placeholder `placeholder`.
    pub open spec fn with_placeholder(self, placeholder: Option<Seq<char>>) -> DropdownView {
        DropdownView { placeholder, ..self }
    }
}

/// The text shown when nothing valid is chosen and there is no placeholder.
pub open spec fn default_prompt() -> Seq<char> {
    "Select..."@
}

/// The text a drop-down in state `d` shows: the chosen option, if the index
/// names one; else the placeholder; else the default prompt.
pub open spec fn shown_text(d: DropdownView) -> Seq<char> {
    match d.selected {
        Some(i) if i < d.options.len() => d.options[i as int],
        _ => match d.placeholder {
            Some(p) => p,
            None => default_prompt(),
        },
    }
}

/// Whether the index chosen in `d` names one of its options.
pub open spec fn valid_choice(d: DropdownView) -> bool {
    d.selected matches Some(i) && i < d.options.len()
}

/// A valid choice is always shown, whatever the placeholder; without a valid
/// choice the placeholder is shown, whatever the options, or "Select..." when
/// there is no placeholder.
pub proof fn law_valid_choice_shown(d: DropdownView, other_placeholder: Option<Seq<char>>)
    ensures
        valid_choice(d) ==> shown_text(d) == d.options[d.selected.unwrap() as int],
        valid_choice(d) ==> shown_text(d.with_placeholder(other_placeholder)) == shown_text(d),
        !valid_choice(d) && d.placeholder is Some ==> shown_text(d) == d.placeholder.unwrap(),
        !valid_choice(d) && d.placeholder is None ==> shown_text(d) == seq!['S', 'e', 'l', 'e', 'c', 't', '.', '.', '.'],
{
    reveal_strlit("Select...");
}

/// The length in bytes of a text, as `str::len` gives it.
pub open spec fn byte_len(s: Seq<char>) -> usize {
    vstd::utf8::encode_utf8(s).len() as usize
}

/// The largest of the byte lengths of `texts`, 0 for none.
pub open spec fn longest_len(texts: Seq<Seq<char>>) -> usize
    decreases texts.len(),
{
    if texts.len() == 0 {
        0
    } else {
        let rest = longest_len(texts.drop_last());
        let last = byte_len(texts.last());
        if last > rest {
            last
        } else {
            rest
        }
    }
}

/// Every text is at most as long as the longest, and the longest is one of
/// them (or 0 for none).
pub proof fn lemma_longest_len(texts: Seq<Seq<char>>)
    ensures
        forall|i: int| 0 <= i < texts.len() ==> byte_len(#[trigger] texts[i]) <= longest_len(texts),
        texts.len() == 0 ==> longest_len(texts) == 0,
        texts.len() > 0 ==> exists|i: int|
            0 <= i < texts.len() && byte_len(#[trigger] texts[i]) == longest_len(texts),
    decreases texts.len(),
{
    if texts.len() > 0 {
        let init = texts.drop_last();
        lemma_longest_len(init);
        assert forall|i: int| 0 <= i < texts.len() implies byte_len(#[trigger] texts[i]) <= longest_len(texts) by {
            if i < texts.len() - 1 {
                assert(texts[i] == init[i]);
            }
        }
        if init.len() > 0 && longest_len(init) >= byte_len(texts.last()) {
            let j = choose|j: int| 0 <= j < init.len() && byte_len(#[trigger] init[j]) == longest_len(init);
            assert(texts[j] == init[j]);
        } else {
            assert(byte_len(texts[texts.len() - 1]) == longest_len(texts));
        }
    }
}

/// The texts whose widths a drop-down measures: its options, then its
/// placeholder if it has one.
pub open spec fn measured_texts(d: DropdownView) -> Seq<Seq<char>> {
    match d.placeholder {
        Some(p) => d.options.push(p),
        None => d.options,
    }
}

impl View for Dropdown {
    type V = DropdownView;

    closed spec fn view(&self) -> DropdownView {
        DropdownView {
            options: self.options@.map_values(|s: String| s@),
            selected: self.selected,
            placeholder: match self.placeholder {
                Some(p) => Some(p@),
                None => None,
            },
        }
    }
}

impl Dropdown {
    /// A drop-down with the given options, nothing chosen and no placeholder.
    pub fn new(options: Vec<String>) -> (r: Self)
        ensures
            r@ == (DropdownView {
                options: options@.map_values(|s: String| s@),
                selected: None,
                placeholder: None,
            }),
    {
        Dropdown { options, selected: None, placeholder: None }
    }

    /// The same drop-down with `index` chosen.
    pub fn selected(self, index: usize) -> (r: Self)
        ensures
            r@ == (DropdownView { selected: Some(index), ..self@ }),
    {
        Dropdown { selected: Some(index), ..self }
    }

    /// The same drop-down with a placeholder.
    pub fn placeholder(self, text: &str) -> (r: Self)
        ensures
            r@ == (DropdownView { placeholder: Some(text@), ..self@ }),
    {
        Dropdown { placeholder: Some(text.to_string()), ..self }
    }

    /// The index chosen, if any.
    pub fn selected_index(&self) -> (r: Option<usize>)
        ensures
            r == self@.selected,
    {
        self.selected
    }

    /// The text the drop-down shows.
    pub fn display_text(&self) -> (r: &str)
        ensures
            r@ == shown_text(self@),
    {
        match self.selected {
            Some(idx) => {
                if idx < self.options.len() {
                    return self.options[idx].as_str();
                }
            },
            None => {},
        }
        match &self.placeholder {
            Some(p) => p.as_str(),
            None => {
                proof {
                    reveal_strlit("Select...");
                }
                "Select..."
            },
        }
    }

    /// The byte length of the longest of the options and the placeholder
    /// (0 when there is none), from which the drop-down's width is measured.
    pub fn longest_option_len(&self) -> (r: usize)
        ensures
            r == longest_len(measured_texts(self@)),
    {
        let mut longest: usize = 0;
        let mut i: usize = 0;
        let ghost texts = self@.options;
        while i < self.options.len()
            invariant
                i <= self.options@.len(),
                texts == self.options@.map_values(|s: String| s@),
                longest == longest_len(texts.take(i as int)),
            decreases self.options@.len() - i,
        {
            let len = self.options[i].as_str().len();
            assert(texts.take(i + 1).drop_last() =~= texts.take(i as int));
            if len > longest {
                longest = len;
            }
            i = i + 1;
        }
        assert(texts.take(i as int) =~= texts);
        match &self.placeholder {
            Some(p) => {
                let len = p.as_str().len();
                assert(measured_texts(self@).drop_last() =~= texts);
                if len > longest {
                    longest = len;
                }
            },
            None => {},
        }
        longest
    }
}

} // verus!
