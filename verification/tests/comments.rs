use signals_transform::ast::Span;
use signals_transform::comments::{
    is_no_track_signals_directive, is_track_signals_directive, should_track_by_comment, Comment,
    CommentKind, Comments, ShouldTrack,
};

fn comment(kind: CommentKind, text: &str) -> Comment {
    Comment {
        kind,
        text: text.to_string(),
    }
}

fn said(comments: Vec<Comment>) -> ShouldTrack {
    let mut all = Comments::new();
    all.set_leading(7, comments);
    should_track_by_comment(&all, &Span { lo: 7, hi: 20 })
}

#[test]
fn directive_stands_between_white_space_or_ends() {
    assert!(is_track_signals_directive("@trackControls"));
    assert!(is_track_signals_directive("*\n * @trackControls\n "));
    assert!(is_track_signals_directive(" text @trackControls"));
    assert!(is_track_signals_directive("@trackControls\ttext"));
    assert!(is_track_signals_directive("x@trackControls @trackControls"));
    assert!(is_no_track_signals_directive("@noTrackControls"));
    assert!(is_no_track_signals_directive("*\n * @noTrackControls\n "));
}

#[test]
fn directive_inside_a_word_is_none() {
    assert!(!is_track_signals_directive(""));
    assert!(!is_track_signals_directive("trackControls"));
    assert!(!is_track_signals_directive("x@trackControls"));
    assert!(!is_track_signals_directive("@trackControlsx"));
    assert!(!is_track_signals_directive("@trackControls,"));
    assert!(!is_track_signals_directive("*@trackControls"));
    assert!(!is_track_signals_directive("@trackcontrols"));
    assert!(!is_no_track_signals_directive("@trackControls"));
    assert!(!is_no_track_signals_directive("@noTrackControls."));
}

#[test]
fn directives_do_not_imply_one_another() {
    assert!(!is_track_signals_directive("@noTrackControls"));
    assert!(!is_no_track_signals_directive("@trackControls"));
}

#[test]
fn every_white_space_of_unicode_separates() {
    let spaces = [
        '\t', '\n', '\u{b}', '\u{c}', '\r', ' ', '\u{85}', '\u{a0}', '\u{1680}', '\u{2000}',
        '\u{2005}', '\u{200a}', '\u{2028}', '\u{2029}', '\u{202f}', '\u{205f}', '\u{3000}',
    ];
    for space in spaces {
        assert!(is_track_signals_directive(&format!("a{}@trackControls{}b", space, space)));
    }
    for other in ['\u{8}', '\u{e}', '\u{180e}', '\u{200b}', '\u{2060}', '\u{feff}', '*', '-'] {
        assert!(!is_track_signals_directive(&format!("a{}@trackControls", other)));
        assert!(!is_track_signals_directive(&format!("@trackControls{}b", other)));
    }
}

#[test]
fn block_comments_carry_directives() {
    assert_eq!(
        said(vec![comment(CommentKind::Block, " @trackControls ")]),
        ShouldTrack::OptIn
    );
    assert_eq!(
        said(vec![comment(CommentKind::Block, " @noTrackControls ")]),
        ShouldTrack::OptOut
    );
    assert_eq!(
        said(vec![comment(CommentKind::Block, " neither ")]),
        ShouldTrack::Auto
    );
    assert_eq!(said(vec![]), ShouldTrack::Auto);
}

#[test]
fn line_comments_carry_none() {
    assert_eq!(
        said(vec![comment(CommentKind::Line, " @trackControls ")]),
        ShouldTrack::Auto
    );
    assert_eq!(
        said(vec![
            comment(CommentKind::Line, " @noTrackControls "),
            comment(CommentKind::Block, " @trackControls "),
        ]),
        ShouldTrack::OptIn
    );
}

#[test]
fn forbidding_wins_over_asking() {
    assert_eq!(
        said(vec![comment(
            CommentKind::Block,
            "*\n * @noTrackControls\n * @trackControls\n "
        )]),
        ShouldTrack::OptOut
    );
    assert_eq!(
        said(vec![
            comment(CommentKind::Block, " @trackControls "),
            comment(CommentKind::Block, " @noTrackControls "),
            comment(CommentKind::Block, " @trackControls "),
        ]),
        ShouldTrack::OptOut
    );
}

#[test]
fn comments_are_found_by_where_the_span_begins() {
    let mut comments = Comments::new();
    assert!(comments.get_leading(7).is_none());
    comments.set_leading(7, vec![comment(CommentKind::Block, "@trackControls")]);
    assert_eq!(comments.get_leading(7).map(|found| found.len()), Some(1));
    assert_eq!(
        should_track_by_comment(&comments, &Span { lo: 7, hi: 8 }),
        ShouldTrack::OptIn
    );
    assert_eq!(
        should_track_by_comment(&comments, &Span { lo: 8, hi: 7 }),
        ShouldTrack::Auto
    );
    comments.set_leading(7, vec![]);
    assert_eq!(
        should_track_by_comment(&comments, &Span { lo: 7, hi: 8 }),
        ShouldTrack::Auto
    );
}
