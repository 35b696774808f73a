//! The codec of interaction tokens.
//!
//! A token is the short text that an interactive control carries. It holds
//! the whole intent of the control, so that nothing has to be remembered
//! between showing the control and its being pressed:
//!
//! ```text
//! <tag> "_" <post-id>                                        show the bundle
//! <tag> "_" <conversation-id> "_" <author-id> "_" <position>  advance the thread
//! ```
//!
//! Every field is a decimal integer.

use vstd::prelude::*;
use vstd::string::StringExecFns;
use crate::decimal::{
    field_value, is_digit, lemma_numeral_field, lemma_numeral_reads_back, numeral, push_numeral,
    read_field,
};
use crate::text::chars_of;

verus! {

/// The character between two fields of a token.
pub const SEPARATOR: char = '_';

/// The tag of a token that asks for the full bundle of one post.
pub const SHOW_BUNDLE_TAG: u8 = 9;

/// The tag of a token that asks for the next post of a thread.
pub const ADVANCE_THREAD_TAG: u8 = 2;

/// What pressing a control asks for.
#[derive(Clone, Copy, Debug, PartialEq, Eq, Structural)]
pub enum Intent {
    /// Show every media item of the post `post_id`.
    ShowBundle { post_id: u64 },
    /// Show the post at `position` of the thread that `author_id` wrote in
    /// the conversation `conversation_id`.
    AdvanceThread { conversation_id: u64, author_id: u64, position: u8 },
}

/// Why a token could not be decoded.
#[derive(Clone, Copy, Debug, PartialEq, Eq, Structural)]
pub enum TokenDecodeFailure {
    /// The tag is a number, but none that stands for an intent.
    UnknownTag,
    /// The number of fields is not the one that the tag calls for.
    WrongArity,
    /// A field is not a decimal integer, or is too large for its place.
    InvalidInteger,
}

/// Whether `s` holds no separator.
pub open spec fn separator_free(s: Seq<char>) -> bool {
    forall|i: int| 0 <= i < s.len() ==> #[trigger] s[i] != SEPARATOR
}

/// The fields of `s`: the runs of characters between its separators, in
/// order. A text with `k` separators has `k + 1` fields, empty ones
/// included.
pub open spec fn fields(s: Seq<char>) -> Seq<Seq<char>>
    decreases s.len(),
{
    if s.len() == 0 {
        seq![Seq::<char>::empty()]
    } else {
        let before = fields(s.drop_last());
        if s.last() == SEPARATOR {
            before.push(Seq::<char>::empty())
        } else {
            before.update(before.len() - 1, before.last().push(s.last()))
        }
    }
}

/// The fields `parts` written one after the other with a separator between
/// each two.
pub open spec fn joined(parts: Seq<Seq<char>>) -> Seq<char>
    decreases parts.len(),
{
    if parts.len() == 0 {
        Seq::<char>::empty()
    } else if parts.len() == 1 {
        parts[0]
    } else {
        joined(parts.drop_last()).push(SEPARATOR) + parts.last()
    }
}

/// The fields that the token of `intent` is made of.
pub open spec fn intent_fields(intent: Intent) -> Seq<Seq<char>> {
    match intent {
        Intent::ShowBundle { post_id } => seq![
            numeral(SHOW_BUNDLE_TAG as nat),
            numeral(post_id as nat),
        ],
        Intent::AdvanceThread { conversation_id, author_id, position } => seq![
            numeral(ADVANCE_THREAD_TAG as nat),
            numeral(conversation_id as nat),
            numeral(author_id as nat),
            numeral(position as nat),
        ],
    }
}

/// The token of `intent`.
pub open spec fn encoded(intent: Intent) -> Seq<char> {
    joined(intent_fields(intent))
}

/// What the token `s` decodes to.
///
/// The first field is the tag and has to fit eight bits; the tag fixes how
/// many fields follow and how wide each may be.
pub open spec fn decoded(s: Seq<char>) -> Result<Intent, TokenDecodeFailure> {
    let f = fields(s);
    match field_value(f[0], u8::MAX as nat) {
        None => Err(TokenDecodeFailure::InvalidInteger),
        Some(tag) => if tag == SHOW_BUNDLE_TAG {
            if f.len() != 2 {
                Err(TokenDecodeFailure::WrongArity)
            } else {
                match field_value(f[1], u64::MAX as nat) {
                    Some(post_id) => Ok(Intent::ShowBundle { post_id: post_id as u64 }),
                    None => Err(TokenDecodeFailure::InvalidInteger),
                }
            }
        } else if tag == ADVANCE_THREAD_TAG {
            if f.len() != 4 {
                Err(TokenDecodeFailure::WrongArity)
            } else {
                match (
                    field_value(f[1], u64::MAX as nat),
                    field_value(f[2], u64::MAX as nat),
                    field_value(f[3], u8::MAX as nat),
                ) {
                    (Some(conversation_id), Some(author_id), Some(position)) => Ok(
                        Intent::AdvanceThread {
                            conversation_id: conversation_id as u64,
                            author_id: author_id as u64,
                            position: position as u8,
                        },
                    ),
                    _ => Err(TokenDecodeFailure::InvalidInteger),
                }
            }
        } else {
            Err(TokenDecodeFailure::UnknownTag)
        },
    }
}

/// A text always has at least one field.
pub proof fn lemma_fields_nonempty(s: Seq<char>)
    ensures
        fields(s).len() >= 1,
    decreases s.len(),
{
    if s.len() > 0 {
        lemma_fields_nonempty(s.drop_last());
    }
}

/// A text without a separator is its own single field.
pub proof fn lemma_fields_single(s: Seq<char>)
    requires
        separator_free(s),
    ensures
        fields(s) == seq![s],
    decreases s.len(),
{
    if s.len() == 0 {
        assert(s == Seq::<char>::empty());
    } else {
        let init = s.drop_last();
        assert(separator_free(init)) by {
            assert forall|i: int| 0 <= i < init.len() implies #[trigger] init[i] != SEPARATOR by {
                assert(init[i] == s[i]);
            }
        }
        lemma_fields_single(init);
        assert(s[s.len() - 1] != SEPARATOR);
        assert(init.push(s.last()) == s);
        assert(seq![init].update(0, s) == seq![s]);
    }
}

/// A separator and a text without one add exactly that text as a field.
pub proof fn lemma_fields_extend(a: Seq<char>, b: Seq<char>)
    requires
        separator_free(b),
    ensures
        fields(a.push(SEPARATOR) + b) == fields(a).push(b),
    decreases b.len(),
{
    let whole = a.push(SEPARATOR) + b;
    if b.len() == 0 {
        assert(whole == a.push(SEPARATOR));
        assert(whole.drop_last() == a);
        assert(b == Seq::<char>::empty());
    } else {
        let init = b.drop_last();
        assert(separator_free(init)) by {
            assert forall|i: int| 0 <= i < init.len() implies #[trigger] init[i] != SEPARATOR by {
                assert(init[i] == b[i]);
            }
        }
        lemma_fields_extend(a, init);
        assert(whole.drop_last() == a.push(SEPARATOR) + init);
        assert(whole.last() == b.last());
        assert(b[b.len() - 1] != SEPARATOR);
        assert(init.push(b.last()) == b);
        let before = fields(a).push(init);
        assert(before.update(before.len() - 1, b) == fields(a).push(b));
    }
}

/// Joining one more field appends a separator and that field.
pub proof fn lemma_joined_push(parts: Seq<Seq<char>>, last: Seq<char>)
    requires
        parts.len() >= 1,
    ensures
        joined(parts.push(last)) == joined(parts).push(SEPARATOR) + last,
{
    assert(parts.push(last).drop_last() == parts);
}

/// Splitting undoes joining: fields without separators, joined, split into
/// the same fields again.
pub proof fn lemma_fields_of_joined(parts: Seq<Seq<char>>)
    requires
        parts.len() >= 1,
        forall|i: int| 0 <= i < parts.len() ==> separator_free(#[trigger] parts[i]),
    ensures
        fields(joined(parts)) == parts,
    decreases parts.len(),
{
    if parts.len() == 1 {
        lemma_fields_single(parts[0]);
        assert(seq![parts[0]] == parts);
    } else {
        let init = parts.drop_last();
        assert forall|i: int| 0 <= i < init.len() implies separator_free(#[trigger] init[i]) by {
            assert(init[i] == parts[i]);
        }
        lemma_fields_of_joined(init);
        lemma_fields_extend(joined(init), parts.last());
        assert(init.push(parts.last()) == parts);
    }
}

/// No field holds a separator.
pub proof fn lemma_fields_separator_free(s: Seq<char>)
    ensures
        forall|i: int| 0 <= i < fields(s).len() ==> separator_free(#[trigger] fields(s)[i]),
    decreases s.len(),
{
    if s.len() > 0 {
        let before = fields(s.drop_last());
        lemma_fields_separator_free(s.drop_last());
        lemma_fields_nonempty(s.drop_last());
        assert forall|i: int| 0 <= i < fields(s).len() implies separator_free(
            #[trigger] fields(s)[i],
        ) by {
            if i < before.len() - 1 {
                assert(fields(s)[i] == before[i]);
            } else if s.last() != SEPARATOR {
                assert(separator_free(before[before.len() - 1]));
            }
        }
    }
}

/// Joining undoes splitting: the fields of a text, joined, are the text.
pub proof fn lemma_joined_of_fields(s: Seq<char>)
    ensures
        joined(fields(s)) == s,
    decreases s.len(),
{
    if s.len() == 0 {
        assert(s == Seq::<char>::empty());
    } else {
        let init = s.drop_last();
        let before = fields(init);
        lemma_joined_of_fields(init);
        lemma_fields_nonempty(init);
        assert(init.push(s.last()) == s);
        if s.last() == SEPARATOR {
            lemma_joined_push(before, Seq::<char>::empty());
            assert(joined(before).push(SEPARATOR) + Seq::<char>::empty() == init.push(SEPARATOR));
        } else {
            let grown = before.last().push(s.last());
            if before.len() == 1 {
                assert(fields(s) == seq![grown]);
                assert(before.last() == init);
            } else {
                let front = before.drop_last();
                assert(fields(s) == front.push(grown));
                assert(before == front.push(before.last()));
                lemma_joined_push(front, grown);
                lemma_joined_push(front, before.last());
                assert(joined(front).push(SEPARATOR) + grown == (joined(front).push(SEPARATOR)
                    + before.last()).push(s.last()));
            }
        }
    }
}

/// A numeral holds no separator.
pub proof fn lemma_numeral_separator_free(n: nat)
    ensures
        separator_free(numeral(n)),
{
    lemma_numeral_reads_back(n);
    let s = numeral(n);
    assert forall|i: int| 0 <= i < s.len() implies #[trigger] s[i] != SEPARATOR by {
        assert(is_digit(s[i]));
    }
}

/// Decoding undoes encoding: the token of any intent decodes to that intent.
pub proof fn lemma_decode_encode(intent: Intent)
    ensures
        decoded(encoded(intent)) == Ok::<Intent, TokenDecodeFailure>(intent),
{
    let parts = intent_fields(intent);
    match intent {
        Intent::ShowBundle { post_id } => {
            lemma_numeral_separator_free(SHOW_BUNDLE_TAG as nat);
            lemma_numeral_separator_free(post_id as nat);
            lemma_fields_of_joined(parts);
            lemma_numeral_field(SHOW_BUNDLE_TAG as nat, u8::MAX as nat);
            lemma_numeral_field(post_id as nat, u64::MAX as nat);
        },
        Intent::AdvanceThread { conversation_id, author_id, position } => {
            lemma_numeral_separator_free(ADVANCE_THREAD_TAG as nat);
            lemma_numeral_separator_free(conversation_id as nat);
            lemma_numeral_separator_free(author_id as nat);
            lemma_numeral_separator_free(position as nat);
            lemma_fields_of_joined(parts);
            lemma_numeral_field(ADVANCE_THREAD_TAG as nat, u8::MAX as nat);
            lemma_numeral_field(conversation_id as nat, u64::MAX as nat);
            lemma_numeral_field(author_id as nat, u64::MAX as nat);
            lemma_numeral_field(position as nat, u8::MAX as nat);
        },
    }
}

/// Two intents with the same token are the same intent.
pub proof fn lemma_encode_injective(a: Intent, b: Intent)
    requires
        encoded(a) == encoded(b),
    ensures
        a == b,
{
    lemma_decode_encode(a);
    lemma_decode_encode(b);
}

/// The views of the fields in `parts`.
pub open spec fn field_views(parts: Seq<Vec<char>>) -> Seq<Seq<char>> {
    parts.map_values(|p: Vec<char>| p@)
}

/// Splits `s` at its separators.
pub fn split_fields(s: &Vec<char>) -> (parts: Vec<Vec<char>>)
    ensures
        field_views(parts@) == fields(s@),
{
    let mut done: Vec<Vec<char>> = Vec::new();
    let mut current: Vec<char> = Vec::new();
    let n = s.len();
    let mut i: usize = 0;
    assert(s@.take(0) == Seq::<char>::empty());
    assert(field_views(done@).push(current@) == fields(s@.take(0)));
    while i < n
        invariant
            i <= n,
            n == s.len(),
            field_views(done@).push(current@) == fields(s@.take(i as int)),
        decreases n - i,
    {
        let c = s[i];
        proof {
            assert(s@.take(i + 1).drop_last() == s@.take(i as int));
            assert(s@.take(i + 1).last() == c);
        }
        let ghost before = field_views(done@).push(current@);
        if c == SEPARATOR {
            done.push(current);
            current = Vec::new();
            assert(field_views(done@) =~= before);
        } else {
            current.push(c);
            assert(field_views(done@).push(current@) =~= before.update(
                before.len() - 1,
                before.last().push(c),
            ));
        }
        i += 1;
    }
    assert(s@.take(n as int) == s@);
    let ghost before = field_views(done@).push(current@);
    done.push(current);
    assert(field_views(done@) =~= before);
    done
}

/// Appends a separator and the numeral of `n` to a token under construction.
fn push_field(token: &mut String, n: u64, Ghost(parts): Ghost<Seq<Seq<char>>>)
    requires
        parts.len() >= 1,
        old(token)@ == joined(parts),
    ensures
        final(token)@ == joined(parts.push(numeral(n as nat))),
{
    proof {
        reveal_strlit("_");
        lemma_joined_push(parts, numeral(n as nat));
    }
    token.append("_");
    push_numeral(token, n);
    assert(token@ =~= joined(parts).push(SEPARATOR) + numeral(n as nat));
}

/// Writes `intent` as a token.
pub fn encode(intent: &Intent) -> (token: String)
    ensures
        token@ == encoded(*intent),
{
    let mut token = String::new();
    match *intent {
        Intent::ShowBundle { post_id } => {
            let ghost tag = seq![numeral(SHOW_BUNDLE_TAG as nat)];
            push_numeral(&mut token, SHOW_BUNDLE_TAG as u64);
            assert(token@ =~= joined(tag));
            push_field(&mut token, post_id, Ghost(tag));
            assert(tag.push(numeral(post_id as nat)) =~= intent_fields(*intent));
        },
        Intent::AdvanceThread { conversation_id, author_id, position } => {
            let ghost one = seq![numeral(ADVANCE_THREAD_TAG as nat)];
            let ghost two = one.push(numeral(conversation_id as nat));
            let ghost three = two.push(numeral(author_id as nat));
            push_numeral(&mut token, ADVANCE_THREAD_TAG as u64);
            assert(token@ =~= joined(one));
            push_field(&mut token, conversation_id, Ghost(one));
            push_field(&mut token, author_id, Ghost(two));
            push_field(&mut token, position as u64, Ghost(three));
            assert(three.push(numeral(position as nat)) =~= intent_fields(*intent));
        },
    }
    token
}

/// Reads a token back into the intent that it carries.
///
/// A token that fits neither form of the grammar is reported, with the first
/// reason that applies: a tag that is no eight-bit decimal integer, a tag that
/// stands for no intent, a number of fields other than the one the tag calls
/// for, a field that is no decimal integer of its width.
pub fn decode(token: &str) -> (r: Result<Intent, TokenDecodeFailure>)
    ensures
        r == decoded(token@),
{
    let chars = chars_of(token);
    let parts = split_fields(&chars);
    proof {
        lemma_fields_nonempty(token@);
        assert(forall|i: int|
            0 <= i < parts.len() ==> parts[i]@ == #[trigger] field_views(parts@)[i]);
    }
    let tag = match read_field(&parts[0], u8::MAX as u64) {
        Some(tag) => tag,
        None => {
            return Err(TokenDecodeFailure::InvalidInteger);
        },
    };
    if tag == SHOW_BUNDLE_TAG as u64 {
        if parts.len() != 2 {
            return Err(TokenDecodeFailure::WrongArity);
        }
        match read_field(&parts[1], u64::MAX) {
            Some(post_id) => Ok(Intent::ShowBundle { post_id }),
            None => Err(TokenDecodeFailure::InvalidInteger),
        }
    } else if tag == ADVANCE_THREAD_TAG as u64 {
        if parts.len() != 4 {
            return Err(TokenDecodeFailure::WrongArity);
        }
        let conversation_id = read_field(&parts[1], u64::MAX);
        let author_id = read_field(&parts[2], u64::MAX);
        let position = read_field(&parts[3], u8::MAX as u64);
        match (conversation_id, author_id, position) {
            (Some(conversation_id), Some(author_id), Some(position)) => Ok(
                Intent::AdvanceThread { conversation_id, author_id, position: position as u8 },
            ),
            _ => Err(TokenDecodeFailure::InvalidInteger),
        }
    } else {
        Err(TokenDecodeFailure::UnknownTag)
    }
}

} // verus!
