//! What comments ask for.
use vstd::prelude::*;

use crate::ast::Span;
use crate::comments::{
    comments_directive, contains_word, is_space, span_directive, spans_directive, stands_at,
    CommentKind, CommentView, Comments, ShouldTrack,
};

verus! {

/// White space, by code point.
pub open spec fn is_white(c: char) -> bool {
    let code = c as int;
    ||| 0x9 <= code <= 0xd
    ||| code == 0x20
    ||| code == 0x85
    ||| code == 0xa0
    ||| code == 0x1680
    ||| 0x2000 <= code <= 0x200a
    ||| code == 0x2028
    ||| code == 0x2029
    ||| code == 0x202f
    ||| code == 0x205f
    ||| code == 0x3000
}

/// The text is `before`, the word and `after`, and white space or an end of the text
/// stands on either side of the word.
pub open spec fn is_split(
    text: Seq<char>,
    before: Seq<char>,
    word: Seq<char>,
    after: Seq<char>,
) -> bool {
    &&& text == before + word + after
    &&& before.len() == 0 || is_white(before.last())
    &&& after.len() == 0 || is_white(after.first())
}

pub open spec fn has_word(text: Seq<char>, word: Seq<char>) -> bool {
    exists|before: Seq<char>, after: Seq<char>| is_split(text, before, word, after)
}

/// A word is in a text if and only if the text splits into what comes before it, the
/// word and what comes after it, with white space or an end on either side.
pub proof fn words_stand_between_white_space(text: Seq<char>, word: Seq<char>)
    ensures
        contains_word(text, word) <==> has_word(text, word),
{
    assert forall|c: char| is_space(c) <==> is_white(c) by {}
    if contains_word(text, word) {
        let i = choose|i: int| stands_at(text, word, i);
        let before = text.subrange(0, i);
        let after = text.subrange(i + word.len(), text.len() as int);
        assert(text =~= before + word + after) by {
            assert forall|j: int| 0 <= j < word.len() implies text[i + j] == word[j] by {
                assert(text.subrange(i, i + word.len())[j] == word[j]);
            }
        }
        assert(is_split(text, before, word, after));
    }
    if has_word(text, word) {
        let (before, after) = choose|before: Seq<char>, after: Seq<char>|
            is_split(text, before, word, after);
        let i = before.len() as int;
        assert(text.subrange(i, i + word.len()) =~= word);
        assert(stands_at(text, word, i));
    }
}

/// A block comment right before the position holds the word.
pub open spec fn says_at(comments: Map<u32, Seq<CommentView>>, pos: u32, word: Seq<char>) -> bool {
    comments.contains_key(pos) && exists|i: int|
        0 <= i < comments[pos].len() && (#[trigger] comments[pos][i]).kind == CommentKind::Block
            && has_word(comments[pos][i].text, word)
}

/// A block comment right before the position says `@noTrackControls`.
pub open spec fn forbids_at(comments: Map<u32, Seq<CommentView>>, pos: u32) -> bool {
    says_at(comments, pos, "@noTrackControls"@)
}

/// A block comment right before the position says `@trackControls`.
pub open spec fn asks_at(comments: Map<u32, Seq<CommentView>>, pos: u32) -> bool {
    says_at(comments, pos, "@trackControls"@)
}

/// The block comments right before a span decide on it, wherever the span ends: one
/// that says `@noTrackControls` forbids tracking, and one that says `@trackControls`
/// asks for it where none forbids it.
pub proof fn block_comments_decide(comments: Map<u32, Seq<CommentView>>, span: Span)
    ensures
        span_directive(comments, span) == ShouldTrack::OptOut <==> forbids_at(comments, span.lo),
        span_directive(comments, span) == ShouldTrack::OptIn <==> asks_at(comments, span.lo)
            && !forbids_at(comments, span.lo),
        span_directive(comments, span) == ShouldTrack::Auto <==> !asks_at(comments, span.lo)
            && !forbids_at(comments, span.lo),
{
    assert forall|text: Seq<char>| #[trigger]
        contains_word(text, "@noTrackControls"@) <==> has_word(text, "@noTrackControls"@) by {
        words_stand_between_white_space(text, "@noTrackControls"@);
    }
    assert forall|text: Seq<char>| #[trigger]
        contains_word(text, "@trackControls"@) <==> has_word(text, "@trackControls"@) by {
        words_stand_between_white_space(text, "@trackControls"@);
    }
    if comments.contains_key(span.lo) {
        let list = comments[span.lo];
        if forbids_at(comments, span.lo) {
            let i = choose|i: int|
                0 <= i < list.len() && (#[trigger] list[i]).kind == CommentKind::Block && has_word(
                    list[i].text,
                    "@noTrackControls"@,
                );
            assert(contains_word(list[i].text, "@noTrackControls"@));
        }
        if asks_at(comments, span.lo) {
            let i = choose|i: int|
                0 <= i < list.len() && (#[trigger] list[i]).kind == CommentKind::Block && has_word(
                    list[i].text,
                    "@trackControls"@,
                );
            assert(contains_word(list[i].text, "@trackControls"@));
        }
    }
}

/// Of several spans, one that is forbidden decides; where none is, one that is asked
/// for does.
pub proof fn any_span_decides(comments: Map<u32, Seq<CommentView>>, spans: Seq<Span>)
    ensures
        spans_directive(comments, spans) == ShouldTrack::OptOut <==> exists|i: int|
            0 <= i < spans.len() && forbids_at(comments, (#[trigger] spans[i]).lo),
        spans_directive(comments, spans) == ShouldTrack::OptIn <==> (exists|i: int|
            0 <= i < spans.len() && asks_at(comments, (#[trigger] spans[i]).lo)) && !(exists|
            i: int,
        |
            0 <= i < spans.len() && forbids_at(comments, (#[trigger] spans[i]).lo)),
{
    assert forall|i: int| 0 <= i < spans.len() implies (span_directive(
        comments,
        #[trigger] spans[i],
    ) == ShouldTrack::OptOut <==> forbids_at(comments, spans[i].lo)) && (span_directive(
        comments,
        spans[i],
    ) == ShouldTrack::OptIn <==> asks_at(comments, spans[i].lo) && !forbids_at(
        comments,
        spans[i].lo,
    )) by {
        block_comments_decide(comments, spans[i]);
    }
}

/// Comments on lines decide nothing: without block comments, nothing is asked for and
/// nothing is forbidden.
pub proof fn line_comments_decide_nothing(comments: Seq<CommentView>)
    requires
        forall|i: int| 0 <= i < comments.len() ==> (#[trigger] comments[i]).kind
            == CommentKind::Line,
    ensures
        comments_directive(comments) == ShouldTrack::Auto,
{
}

/// What is put before a position is found there, comment by comment, and nothing
/// else is.
pub proof fn comments_are_seen_whole(comments: Comments, pos: u32)
    ensures
        comments@.contains_key(pos) <==> comments.leading@.contains_key(pos),
        comments.leading@.contains_key(pos) ==> comments@[pos].len()
            == comments.leading@[pos]@.len(),
        comments.leading@.contains_key(pos) ==> forall|i: int|
            0 <= i < comments.leading@[pos]@.len() ==> (#[trigger] comments@[pos][i]).kind
                == comments.leading@[pos]@[i].kind && comments@[pos][i].text
                == comments.leading@[pos]@[i].text@,
{
}

} // verus!
