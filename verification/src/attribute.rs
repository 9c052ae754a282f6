//! The directive that a field's attribute text may hold.
//!
//! One shape is recognised: the word `each`, an equals sign, and a string
//! literal whose content is an identifier, as in `each = "tag"`. Blanks may
//! stand around the word, and one comma may follow the literal. Any other
//! text that is not blank is refused, and so is a second attribute block on
//! one field, whatever it holds: a field carries at most one directive, and
//! none is silently overwritten.
//!
//! Splitting the text is done here and proved. Reading the string literal
//! and the identifier is left to `syn`, which knows the lexical rules of
//! Rust. Nothing is claimed of what `syn` reads: every function that reads
//! says what holds whatever was read, and [`block_from`] and
//! [`directive_from`], which take the reading as an argument, say exactly
//! what follows from each reading.

use vstd::prelude::*;
use vstd::string::*;
use crate::diagnostic::{invalid_directive, Diagnostic, DiagnosticModel};
use crate::text::{chars_of, option_text, owned};

verus! {

/// A space, a tab, a line feed or a carriage return.
pub open spec fn is_blank(c: char) -> bool {
    c == ' ' || c == '\t' || c == '\n' || c == '\r'
}

/// Every character of `s` is blank.
pub open spec fn all_blank(s: Seq<char>) -> bool {
    forall|i: int| 0 <= i < s.len() ==> is_blank(#[trigger] s[i])
}

/// The word that introduces the directive.
pub open spec fn keyword() -> Seq<char> {
    seq!['e', 'a', 'c', 'h']
}

/// `s` is the keyword, starting at `at`, with nothing but blanks before and
/// after it.
pub open spec fn is_keyword_at(s: Seq<char>, at: int) -> bool {
    &&& 0 <= at
    &&& at + 4 <= s.len()
    &&& all_blank(s.take(at))
    &&& s.subrange(at, at + 4) == keyword()
    &&& all_blank(s.skip(at + 4))
}

/// `s` is the keyword with nothing but blanks around it.
pub open spec fn is_keyword(s: Seq<char>) -> bool {
    exists|at: int| is_keyword_at(s, at)
}

/// The first equals sign of `s` stands at `j`.
pub open spec fn is_first_equals(s: Seq<char>, j: int) -> bool {
    &&& 0 <= j < s.len()
    &&& s[j] == '='
    &&& forall|k: int| 0 <= k < j ==> s[k] != '='
}

/// `text` assigns to the keyword, with its first equals sign at `j`.
pub open spec fn assigns_at(text: Seq<char>, j: int) -> bool {
    is_first_equals(text, j) && is_keyword(text.take(j))
}

/// A comma stands at `k` in `value`, and nothing but blanks after it.
pub open spec fn is_trailing_comma(value: Seq<char>, k: int) -> bool {
    &&& 0 <= k < value.len()
    &&& value[k] == ','
    &&& all_blank(value.skip(k + 1))
}

/// `value` without the comma that ends it and the blanks after that comma;
/// `value` itself where no comma ends it.
pub open spec fn without_trailing_comma(value: Seq<char>) -> Seq<char> {
    if exists|k: int| is_trailing_comma(value, k) {
        value.take(choose|k: int| is_trailing_comma(value, k))
    } else {
        value
    }
}

/// What `text` assigns to the keyword: all that follows its first equals
/// sign, without one trailing comma, where the keyword alone stands before
/// that sign.
pub open spec fn assigned_text(text: Seq<char>) -> Option<Seq<char>> {
    if exists|j: int| assigns_at(text, j) {
        let j = choose|j: int| assigns_at(text, j);
        Some(without_trailing_comma(text.skip(j + 1)))
    } else {
        None
    }
}

fn is_blank_char(c: char) -> (r: bool)
    ensures
        r == is_blank(c),
{
    c == ' ' || c == '\t' || c == '\n' || c == '\r'
}

/// Whether the characters of `cs` from `from` up to `to` are all blank.
fn blank_between(cs: &Vec<char>, from: usize, to: usize) -> (r: bool)
    requires
        from <= to <= cs.len(),
    ensures
        r == all_blank(cs@.subrange(from as int, to as int)),
{
    let ghost part = cs@.subrange(from as int, to as int);
    let mut i: usize = from;
    while i < to
        invariant
            from <= i <= to <= cs.len(),
            part == cs@.subrange(from as int, to as int),
            forall|k: int| 0 <= k < i - from ==> is_blank(#[trigger] part[k]),
        decreases to - i,
    {
        if !is_blank_char(cs[i]) {
            assert(!is_blank(part[i - from]));
            return false;
        }
        i += 1;
    }
    true
}

/// Whether the first `end` characters of `cs` are the keyword with nothing
/// but blanks around it.
fn names_keyword(cs: &Vec<char>, end: usize) -> (r: bool)
    requires
        end <= cs.len(),
    ensures
        r == is_keyword(cs@.take(end as int)),
{
    let ghost s = cs@.take(end as int);
    let mut at: usize = 0;
    while at < end && is_blank_char(cs[at])
        invariant
            at <= end <= cs.len(),
            s == cs@.take(end as int),
            all_blank(s.take(at as int)),
        decreases end - at,
    {
        at += 1;
    }
    // The keyword can start nowhere but at the first character that is not blank.
    assert forall|other: int| is_keyword_at(s, other) implies other == at by {
        if other < at {
            assert(s.subrange(other, other + 4)[0] == keyword()[0]);
            assert(is_blank(s.take(at as int)[other]));
        } else if other > at {
            assert(is_blank(s.take(other)[at as int]));
        }
    }
    if end - at < 4 {
        return false;
    }
    if cs[at] != 'e' || cs[at + 1] != 'a' || cs[at + 2] != 'c' || cs[at + 3] != 'h' {
        assert(!is_keyword_at(s, at as int)) by {
            let word = s.subrange(at as int, at + 4);
            assert(word[0] == s[at as int] && word[1] == s[at + 1] && word[2] == s[at + 2]
                && word[3] == s[at + 3]);
            assert(keyword()[0] == 'e' && keyword()[1] == 'a' && keyword()[2] == 'c'
                && keyword()[3] == 'h');
        }
        return false;
    }
    assert(s.subrange(at as int, at + 4) =~= keyword());
    let tail = blank_between(cs, at + 4, end);
    assert(s.skip(at + 4) =~= cs@.subrange(at + 4, end as int));
    assert(tail == is_keyword_at(s, at as int));
    tail
}

/// The index in `cs` at which the text from `from` on ends, once a trailing
/// comma and the blanks after it are left out.
fn value_end(cs: &Vec<char>, from: usize) -> (end: usize)
    requires
        from <= cs.len(),
    ensures
        from <= end <= cs.len(),
        cs@.subrange(from as int, end as int) == without_trailing_comma(cs@.skip(from as int)),
{
    let ghost value = cs@.skip(from as int);
    let n: usize = cs.len();
    let mut k: usize = n;
    while k > from && is_blank_char(cs[k - 1])
        invariant
            from <= k <= n == cs.len(),
            value == cs@.skip(from as int),
            all_blank(value.skip(k - from)),
        decreases k,
    {
        k -= 1;
        assert forall|i: int| 0 <= i < value.skip(k - from).len() implies is_blank(
            #[trigger] value.skip(k - from)[i],
        ) by {
            if i > 0 {
                assert(value.skip(k - from)[i] == value.skip(k + 1 - from)[i - 1]);
            }
        }
    }
    // A trailing comma can stand nowhere but right before the blanks at the end.
    assert forall|other: int| is_trailing_comma(value, other) implies other == k - from - 1 by {
        if other >= k - from {
            assert(is_blank(value.skip(k - from)[other - (k - from)]));
        } else if other < k - from - 1 {
            assert(is_blank(value.skip(other + 1)[k - from - 1 - (other + 1)]));
        }
    }
    if k > from && cs[k - 1] == ',' {
        assert(value.skip(k - from) =~= value.skip((k - 1 - from) + 1));
        assert(is_trailing_comma(value, k - 1 - from));
        assert(cs@.subrange(from as int, k - 1) =~= value.take(k - 1 - from));
        k - 1
    } else {
        assert(cs@.subrange(from as int, n as int) =~= value);
        n
    }
}

/// Splits `text` at its first equals sign and returns what follows it,
/// without one trailing comma; `None` unless the keyword alone stands before
/// that sign.
pub fn split_directive(text: &str) -> (r: Option<String>)
    ensures
        option_text(r) == assigned_text(text@),
{
    let cs = chars_of(text);
    let n: usize = cs.len();
    let mut j: usize = 0;
    while j < n && cs[j] != '='
        invariant
            j <= n == cs.len(),
            forall|k: int| 0 <= k < j ==> cs[k] != '=',
        decreases n - j,
    {
        j += 1;
    }
    assert forall|other: int| is_first_equals(cs@, other) implies other == j by {}
    if j == n || !names_keyword(&cs, j) {
        return None;
    }
    assert(assigns_at(text@, j as int));
    let end = value_end(&cs, j + 1);
    let value = text.substring_char(j + 1, end);
    Some(owned(value))
}

/// Whether `text` holds nothing but blanks.
pub fn is_blank_text(text: &str) -> (r: bool)
    ensures
        r == all_blank(text@),
{
    let cs = chars_of(text);
    let r = blank_between(&cs, 0, cs.len());
    assert(cs@.subrange(0, cs.len() as int) =~= text@);
    r
}

/// Calls `syn::parse_str::<syn::LitStr>` on `text` and hands out the
/// literal's `value()` and `suffix()`; `None` where the call fails.
///
/// Trusted, and nothing is claimed: what is read depends on the lexer that
/// is at work in the process, so two calls on one text may differ.
#[verifier::external_body]
fn read_literal(text: &str) -> (r: Option<(String, String)>)
{
    match syn::parse_str::<syn::LitStr>(text) {
        Ok(literal) => Some((literal.value(), literal.suffix().to_owned())),
        Err(_) => None,
    }
}

/// Calls `syn::parse_str::<syn::Ident>` on `text` and hands out the
/// identifier as text; `None` where the call fails.
///
/// Trusted, and nothing is claimed: what is read depends on the lexer that
/// is at work in the process, so two calls on one text may differ.
#[verifier::external_body]
fn read_identifier(text: &str) -> (r: Option<String>)
{
    match syn::parse_str::<syn::Ident>(text) {
        Ok(ident) => Some(ident.to_string()),
        Err(_) => None,
    }
}

/// The view of a string literal that was read: its content and its suffix.
pub open spec fn literal_view(o: Option<(String, String)>) -> Option<(Seq<char>, Seq<char>)> {
    match o {
        Some((content, suffix)) => Some((content@, suffix@)),
        None => None,
    }
}

/// The content of a string literal that was read, where it has no suffix.
pub open spec fn content_of(literal: Option<(Seq<char>, Seq<char>)>) -> Option<Seq<char>> {
    match literal {
        Some((content, suffix)) => if suffix.len() == 0 {
            Some(content)
        } else {
            None
        },
        None => None,
    }
}

/// The content of a string literal that was read. A literal with a suffix
/// is refused, as nothing was read.
pub fn literal_content(literal: Option<(String, String)>) -> (r: Option<String>)
    ensures
        option_text(r) == content_of(literal_view(literal)),
{
    match literal {
        Some((content, suffix)) => {
            if suffix.as_str().unicode_len() == 0 {
                Some(content)
            } else {
                None
            }
        },
        None => None,
    }
}

/// What a field's attribute text asks for.
#[derive(Debug, Clone, PartialEq, Eq)]
pub enum Directive {
    /// `each = "name"`: the field is filled one element at a time, through
    /// a setter called `name`.
    Each(String),
    /// No directive.
    Absent,
    /// The text is there, and is not a directive.
    Invalid(Diagnostic),
}

/// The model of a [`Directive`].
pub ghost enum DirectiveModel {
    Each(Seq<char>),
    Absent,
    Invalid(DiagnosticModel),
}

impl View for Directive {
    type V = DirectiveModel;

    open spec fn view(&self) -> DirectiveModel {
        match self {
            Directive::Each(name) => DirectiveModel::Each(name@),
            Directive::Absent => DirectiveModel::Absent,
            Directive::Invalid(d) => DirectiveModel::Invalid(d@),
        }
    }
}

/// The outcome for the block `text` hangs on what is read from it: the text
/// is not blank and assigns to the keyword.
pub open spec fn reading_decides(text: Seq<char>) -> bool {
    !all_blank(text) && assigned_text(text) is Some
}

/// The directive in one attribute block on the field `field`, given what was
/// read as the accumulator's name from the text that the block assigns:
/// none in a blank block; a failure where the block does not assign to the
/// keyword or no name was read; else the name that was read.
pub open spec fn block_given(
    field: Seq<char>,
    text: Seq<char>,
    read: Option<Seq<char>>,
) -> DirectiveModel {
    if all_blank(text) {
        DirectiveModel::Absent
    } else if assigned_text(text) is None {
        DirectiveModel::Invalid(invalid_directive(field, text))
    } else {
        match read {
            Some(name) => DirectiveModel::Each(name),
            None => DirectiveModel::Invalid(invalid_directive(field, text)),
        }
    }
}

/// The outcome for the blocks of a field hangs on what is read from the
/// first of them.
pub open spec fn blocks_reading_decides(blocks: Seq<Seq<char>>) -> bool {
    blocks.len() > 0 && reading_decides(blocks[0])
}

/// The directive in the attribute blocks of the field `field`, read in the
/// order in which they were written, given what was read as the
/// accumulator's name from the first block: none without a block; the
/// failure of the first block where that block is refused; a failure that
/// points at the second block where there is one; else what the only block
/// holds.
pub open spec fn directive_given(
    field: Seq<char>,
    blocks: Seq<Seq<char>>,
    read: Option<Seq<char>>,
) -> DirectiveModel {
    if blocks.len() == 0 {
        DirectiveModel::Absent
    } else if block_given(field, blocks[0], read) is Invalid || blocks.len() == 1 {
        block_given(field, blocks[0], read)
    } else {
        DirectiveModel::Invalid(invalid_directive(field, blocks[1]))
    }
}

/// The directive in one attribute block on the field `field`, given what was
/// read as the accumulator's name.
pub fn block_from(field: &str, text: &str, read: Option<String>) -> (d: Directive)
    ensures
        d@ == block_given(field@, text@, option_text(read)),
{
    if is_blank_text(text) {
        return Directive::Absent;
    }
    if split_directive(text).is_none() {
        return Directive::Invalid(Diagnostic::invalid_directive(field, text));
    }
    match read {
        Some(name) => Directive::Each(name),
        None => Directive::Invalid(Diagnostic::invalid_directive(field, text)),
    }
}

/// The directive in the attribute blocks of the field `field`, given what
/// was read as the accumulator's name from the first block.
pub fn directive_from(field: &str, blocks: &Vec<String>, read: Option<String>) -> (d: Directive)
    ensures
        d@ == directive_given(field@, blocks.deep_view(), option_text(read)),
{
    if blocks.len() == 0 {
        return Directive::Absent;
    }
    let first = block_from(field, blocks[0].as_str(), read);
    let refused = match &first {
        Directive::Invalid(_) => true,
        _ => false,
    };
    if refused || blocks.len() == 1 {
        first
    } else {
        Directive::Invalid(Diagnostic::invalid_directive(field, blocks[1].as_str()))
    }
}

/// Reads the accumulator's name from the block `text`: where the block
/// assigns to the keyword, the identifier in the string literal that it
/// assigns. Nothing is read from a block on which no reading decides.
fn read_accumulator(text: &str) -> (r: Option<String>)
    ensures
        !reading_decides(text@) ==> r is None,
{
    if is_blank_text(text) {
        return None;
    }
    match split_directive(text) {
        Some(value) => match literal_content(read_literal(value.as_str())) {
            Some(content) => read_identifier(content.as_str()),
            None => None,
        },
        None => None,
    }
}

/// Reads the directive in one attribute block on the field `field`.
///
/// The outcome is that of [`block_from`] for what `syn` read. Where no
/// reading decides (a blank block, a block that does not assign to the
/// keyword) it is the outcome for nothing read.
pub fn parse_block(field: &str, text: &str) -> (d: Directive)
    ensures
        !reading_decides(text@) ==> d@ == block_given(field@, text@, None),
        exists|read: Option<Seq<char>>| d@ == block_given(field@, text@, read),
{
    let read = read_accumulator(text);
    let ghost reading = option_text(read);
    let d = block_from(field, text, read);
    assert(d@ == block_given(field@, text@, reading));
    d
}

/// Reads the directive in the attribute blocks of the field `field`.
///
/// The outcome is that of [`directive_from`] for what `syn` read from the
/// first block. Where no reading decides (no block, a blank first block, a
/// first block that does not assign to the keyword) it is the outcome for
/// nothing read.
pub fn parse_directive(field: &str, blocks: &Vec<String>) -> (d: Directive)
    ensures
        !blocks_reading_decides(blocks.deep_view()) ==> d@ == directive_given(
            field@,
            blocks.deep_view(),
            None,
        ),
        exists|read: Option<Seq<char>>|
            d@ == directive_given(field@, blocks.deep_view(), read),
{
    let read = if blocks.len() == 0 {
        None
    } else {
        read_accumulator(blocks[0].as_str())
    };
    let ghost reading = option_text(read);
    let d = directive_from(field, blocks, read);
    assert(d@ == directive_given(field@, blocks.deep_view(), reading));
    d
}

} // verus!
