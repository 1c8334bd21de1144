//! Symbols as they are tracked: trimmed and in upper case.

use vstd::prelude::*;
use vstd::string::StringExecFns;
use crate::text::{joined, texts};

verus! {

/// The result of `str::to_uppercase` on a text.
pub uninterp spec fn uppercased(text: Seq<char>) -> Seq<char>;

/// Whether a character is white space, as `char::is_whitespace` says.
pub uninterp spec fn white_space(c: char) -> bool;

/// Calls `str::to_uppercase`. The upper case of a text is a table of
/// Unicode, and a function of the text alone: the contract gives it the name
/// `uppercased` and says nothing of what it holds.
#[verifier::external_body]
pub(crate) fn upper(text: &str) -> (out: String)
    ensures
        out@ == uppercased(text@),
{
    text.to_uppercase()
}

/// Calls `char::is_whitespace`, which looks the character up in Unicode's
/// table of white space. The contract gives the answer the name
/// `white_space` and says nothing of which characters it holds for.
#[verifier::external_body]
pub(crate) fn is_space(c: char) -> (b: bool)
    ensures
        b == white_space(c),
{
    c.is_whitespace()
}

/// Which characters of a text are white space.
pub open spec fn spaces_of(text: Seq<char>) -> Seq<bool> {
    Seq::new(text.len(), |i: int| white_space(text[i]))
}

/// The number of marks that are set at the start, one after the other.
pub open spec fn lead(marks: Seq<bool>) -> nat
    decreases marks.len(),
{
    if marks.len() > 0 && marks[0] {
        1 + lead(marks.subrange(1, marks.len() as int))
    } else {
        0
    }
}

/// The number of marks that are left without those set at the end.
pub open spec fn kept_len(marks: Seq<bool>) -> nat
    decreases marks.len(),
{
    if marks.len() > 0 && marks.last() {
        kept_len(marks.drop_last())
    } else {
        marks.len()
    }
}

/// A text without its marked characters at the start and at the end:
/// `marks` holds a mark for each character.
pub open spec fn trimmed_by(text: Seq<char>, marks: Seq<bool>) -> Seq<char> {
    let end = kept_len(marks) as int;
    let start = if lead(marks) < end {
        lead(marks) as int
    } else {
        end
    };
    text.subrange(start, end)
}

/// A text without the white space at its start and at its end.
pub open spec fn trimmed(text: Seq<char>) -> Seq<char> {
    trimmed_by(text, spaces_of(text))
}

/// The marks set at the start end at the first mark that is not set.
pub proof fn lemma_lead(marks: Seq<bool>)
    ensures
        lead(marks) <= marks.len(),
        forall|i: int| 0 <= i < lead(marks) ==> marks[i],
        lead(marks) < marks.len() ==> !marks[lead(marks) as int],
    decreases marks.len(),
{
    if marks.len() > 0 && marks[0] {
        let rest = marks.subrange(1, marks.len() as int);
        lemma_lead(rest);
        assert forall|i: int| 0 <= i < lead(marks) implies marks[i] by {
            if i > 0 {
                assert(marks[i] == rest[i - 1]);
            }
        }
        if lead(marks) < marks.len() {
            assert(marks[lead(marks) as int] == rest[lead(rest) as int]);
        }
    }
}

/// The marks set at the end begin after the last mark that is not set.
pub proof fn lemma_kept_len(marks: Seq<bool>)
    ensures
        kept_len(marks) <= marks.len(),
        forall|i: int| kept_len(marks) <= i < marks.len() ==> marks[i],
        kept_len(marks) > 0 ==> !marks[kept_len(marks) - 1],
    decreases marks.len(),
{
    if marks.len() > 0 && marks.last() {
        lemma_kept_len(marks.drop_last());
        assert forall|i: int| kept_len(marks) <= i < marks.len() implies marks[i] by {
            if i < marks.len() - 1 {
                assert(marks[i] == marks.drop_last()[i]);
            }
        }
    }
}

/// Takes the marked characters off both ends of a text: `marks` holds a
/// mark for each character.
pub fn trim_where<'a>(text: &'a str, marks: &Vec<bool>) -> (out: &'a str)
    requires
        marks@.len() == text@.len(),
    ensures
        out@ == trimmed_by(text@, marks@),
{
    proof {
        lemma_lead(marks@);
        lemma_kept_len(marks@);
    }
    let mut end: usize = marks.len();
    while end > 0 && marks[end - 1]
        invariant
            end <= marks@.len(),
            forall|i: int| end <= i < marks@.len() ==> marks@[i],
        decreases end,
    {
        end = end - 1;
    }
    let mut start: usize = 0;
    while start < end && marks[start]
        invariant
            start <= end <= marks@.len(),
            forall|i: int| 0 <= i < start ==> marks@[i],
        decreases end - start,
    {
        start = start + 1;
    }
    assert(end == kept_len(marks@));
    assert(start == if lead(marks@) < end {
        lead(marks@)
    } else {
        end as nat
    });
    text.substring_char(start, end)
}

/// Marks the white space of a text.
pub fn space_marks(text: &str) -> (marks: Vec<bool>)
    ensures
        marks@ == spaces_of(text@),
{
    let n: usize = text.unicode_len();
    let mut marks: Vec<bool> = Vec::new();
    let mut i: usize = 0;
    while i < n
        invariant
            n == text@.len(),
            i <= n,
            marks@.len() == i,
            forall|k: int| 0 <= k < i ==> marks@[k] == white_space(text@[k]),
        decreases n - i,
    {
        marks.push(is_space(text.get_char(i)));
        i = i + 1;
    }
    assert(marks@ =~= spaces_of(text@));
    marks
}

/// Takes the white space off both ends of a text.
pub fn trim(text: &str) -> (out: &str)
    ensures
        out@ == trimmed(text@),
{
    let marks = space_marks(text);
    trim_where(text, &marks)
}

/// What is left of a trimmed text is a part of the text that neither
/// begins nor ends in white space.
pub proof fn lemma_trimmed_is_bare(text: Seq<char>)
    ensures
        trimmed(text).len() <= text.len(),
        trimmed(text).len() > 0 ==> !white_space(trimmed(text)[0]) && !white_space(
            trimmed(text).last(),
        ),
{
    lemma_lead(spaces_of(text));
    lemma_kept_len(spaces_of(text));
}

/// A symbol as it is tracked: trimmed, then in upper case.
pub open spec fn normalized(text: Seq<char>) -> Seq<char> {
    uppercased(trimmed(text))
}

/// Brings a symbol into the form in which it is tracked.
pub fn normalize(symbol: &str) -> (out: String)
    ensures
        out@ == normalized(symbol@),
{
    upper(trim(symbol))
}

/// Brings each symbol into the form in which it is tracked, in order.
pub fn normalize_all(symbols: &Vec<String>) -> (out: Vec<String>)
    ensures
        out@.len() == symbols@.len(),
        forall|i: int| 0 <= i < symbols@.len() ==> out@[i]@ == normalized(#[trigger] symbols@[i]@),
{
    let mut out: Vec<String> = Vec::new();
    let mut i: usize = 0;
    while i < symbols.len()
        invariant
            i <= symbols@.len(),
            out@.len() == i,
            forall|k: int| 0 <= k < i ==> out@[k]@ == normalized(#[trigger] symbols@[k]@),
        decreases symbols@.len() - i,
    {
        out.push(normalize(symbols[i].as_str()));
        i = i + 1;
    }
    out
}

/// The fields of a text that are parted by commas: one more than there are
/// commas, each of them possibly empty.
pub open spec fn split_commas(text: Seq<char>) -> Seq<Seq<char>>
    decreases text.len(),
{
    if text.len() == 0 {
        seq![Seq::empty()]
    } else {
        let before = split_commas(text.drop_last());
        if text.last() == ',' {
            before.push(Seq::empty())
        } else {
            before.drop_last().push(before.last().push(text.last()))
        }
    }
}

/// The fields in their tracked form, without those that are empty in it.
pub open spec fn kept(fields: Seq<Seq<char>>) -> Seq<Seq<char>>
    decreases fields.len(),
{
    if fields.len() == 0 {
        Seq::empty()
    } else {
        let before = kept(fields.drop_last());
        let symbol = normalized(fields.last());
        if symbol.len() > 0 {
            before.push(symbol)
        } else {
            before
        }
    }
}

/// The symbols that a comma-separated text names.
pub open spec fn symbols_of(input: Seq<char>) -> Seq<Seq<char>> {
    kept(split_commas(input))
}

/// A text always has at least one field.
pub proof fn lemma_split_nonempty(text: Seq<char>)
    ensures
        split_commas(text).len() >= 1,
    decreases text.len(),
{
    if text.len() > 0 {
        lemma_split_nonempty(text.drop_last());
    }
}

/// The fields of a text hold no comma, and with a comma put between each
/// two they make up the text again.
pub proof fn lemma_split_joins_back(text: Seq<char>)
    ensures
        split_commas(text).len() >= 1,
        forall|i: int, j: int|
            0 <= i < split_commas(text).len() && 0 <= j < split_commas(text)[i].len() ==> (
            #[trigger] split_commas(text)[i][j]) != ',',
        joined(split_commas(text), seq![',']) == text,
    decreases text.len(),
{
    let sep = seq![','];
    if text.len() == 0 {
        assert(joined(split_commas(text), sep) =~= text);
    } else {
        let before = split_commas(text.drop_last());
        let fields = split_commas(text);
        lemma_split_joins_back(text.drop_last());
        if text.last() == ',' {
            assert(fields.drop_last() =~= before);
            assert(joined(fields, sep) =~= text);
        } else {
            let field = before.last().push(text.last());
            assert(fields.last() == field);
            if before.len() == 1 {
                assert(joined(fields, sep) =~= text);
            } else {
                assert(fields.drop_last() =~= before.drop_last());
                assert(joined(fields, sep) =~= joined(before, sep).push(text.last()));
                assert(joined(fields, sep) =~= text);
            }
        }
    }
}

/// Adds a symbol to the list unless it is empty.
pub fn keep_nonempty(out: &mut Vec<String>, symbol: String)
    ensures
        final(out)@ == if symbol@.len() > 0 {
            old(out)@.push(symbol)
        } else {
            old(out)@
        },
{
    if !symbol.as_str().is_empty() {
        out.push(symbol);
    }
}

fn keep_field(out: &mut Vec<String>, field: &str)
    ensures
        texts(final(out)@) == if normalized(field@).len() > 0 {
            texts(old(out)@).push(normalized(field@))
        } else {
            texts(old(out)@)
        },
{
    let symbol = normalize(field);
    keep_nonempty(out, symbol);
    assert(normalized(field@).len() > 0 ==> texts(out@) =~= texts(old(out)@).push(
        normalized(field@),
    ));
}

/// Reads the symbols that a comma-separated text names: each field in its
/// tracked form, in order, without the fields that are empty in that form.
pub fn parse_symbols(input: &str) -> (symbols: Vec<String>)
    ensures
        texts(symbols@) == symbols_of(input@),
{
    let n: usize = input.unicode_len();
    let mut symbols: Vec<String> = Vec::new();
    let mut start: usize = 0;
    let mut i: usize = 0;
    assert(input@.subrange(0, 0) =~= Seq::<char>::empty());
    assert(split_commas(input@.subrange(0, 0)).drop_last() =~= Seq::<Seq<char>>::empty());
    assert(texts(symbols@) =~= Seq::<Seq<char>>::empty());
    while i < n
        invariant
            n == input@.len(),
            start <= i <= n,
            split_commas(input@.subrange(0, i as int)).len() >= 1,
            split_commas(input@.subrange(0, i as int)).last() =~= input@.subrange(
                start as int,
                i as int,
            ),
            texts(symbols@) == kept(split_commas(input@.subrange(0, i as int)).drop_last()),
        decreases n - i,
    {
        let ghost head = input@.subrange(0, i as int);
        let ghost next = input@.subrange(0, i + 1);
        proof {
            assert(next.drop_last() =~= head);
            assert(next.last() == input@[i as int]);
            lemma_split_nonempty(next);
        }
        if input.get_char(i) == ',' {
            keep_field(&mut symbols, input.substring_char(start, i));
            start = i + 1;
            proof {
                assert(split_commas(next) == split_commas(head).push(Seq::<char>::empty()));
                assert(split_commas(next).drop_last() =~= split_commas(head));
                assert(split_commas(next).last() =~= input@.subrange(i + 1, i + 1));
            }
        } else {
            proof {
                assert(split_commas(next).drop_last() =~= split_commas(head).drop_last());
                assert(split_commas(next).last() =~= input@.subrange(start as int, i + 1));
            }
        }
        i = i + 1;
    }
    assert(input@.subrange(0, n as int) =~= input@);
    keep_field(&mut symbols, input.substring_char(start, n));
    symbols
}

} // verus!
