//! What holds between writing a drawing out and reading it back.
//!
//! A drawing is written as one viewport element that declares its
//! coordinate box, with one circle element for each circle inside it. The
//! numbers are written by the caller; what is said here holds of whatever
//! text they are written as, so long as it is the text of a number.

use crate::error::HoloError;
use crate::markup::{MarkupEventView, TagKind, TagView};
use crate::number::{digits_len, is_decimal, is_number_text, is_special, is_tail, unsigned};
use crate::parser::{
    circle_name, declared_circle, declared_viewport, drawing_of, scan_events, scan_start,
    viewport_name, CircleView, ExtentsView, Scan,
};
use crate::geometry::Extents;
use crate::scalar::Scalar;
use crate::scriber::{circles, SizedPoint};
use crate::text::is_digit;
use crate::tokens::{is_separator, lemma_token_len_of_run, token_len, tokens};
use vstd::prelude::*;

verus! {

/// The four numbers of a coordinate box, with one space between each two.
pub open spec fn view_box_text(extents: ExtentsView) -> Seq<char> {
    extents.xmin + seq![' '] + extents.ymin + seq![' '] + extents.width + seq![' ']
        + extents.height
}

/// The tag that opens a drawing: a viewport element with its coordinate
/// box and, as it may be, a width and a height.
pub open spec fn opening_tag(
    extents: ExtentsView,
    width: Option<Seq<char>>,
    height: Option<Seq<char>>,
) -> MarkupEventView {
    MarkupEventView::Tag(
        TagView {
            name: viewport_name(),
            kind: TagKind::Start,
            attributes: seq![Some(view_box_text(extents)), width, height, None, None, None],
        },
    )
}

/// The tag of a circle element.
pub open spec fn circle_tag(circle: CircleView) -> MarkupEventView {
    MarkupEventView::Tag(
        TagView {
            name: circle_name(),
            kind: TagKind::Empty,
            attributes: seq![None, None, None, Some(circle.cx), Some(circle.cy), Some(circle.r)],
        },
    )
}

/// The tag that closes a drawing.
pub open spec fn closing_tag() -> MarkupEventView {
    MarkupEventView::Tag(
        TagView {
            name: viewport_name(),
            kind: TagKind::End,
            attributes: seq![None, None, None, None, None, None],
        },
    )
}

/// The tags of the circles, in order.
pub open spec fn circle_tags(circles: Seq<CircleView>) -> Seq<MarkupEventView> {
    Seq::new(circles.len(), |i: int| circle_tag(circles[i]))
}

/// The events of a written drawing: it opens, shows its circles, and
/// closes.
pub open spec fn written_drawing(
    circles: Seq<CircleView>,
    extents: ExtentsView,
    width: Option<Seq<char>>,
    height: Option<Seq<char>>,
) -> Seq<MarkupEventView> {
    seq![opening_tag(extents, width, height)] + circle_tags(circles) + seq![closing_tag()]
}

/// Whether the centre and the radius of a circle are written as numbers.
pub open spec fn circle_is_written(circle: CircleView) -> bool {
    is_number_text(circle.cx) && is_number_text(circle.cy) && is_number_text(circle.r)
}

/// Whether the four numbers of a viewport are written as numbers.
pub open spec fn extents_are_written(extents: ExtentsView) -> bool {
    is_number_text(extents.xmin) && is_number_text(extents.ymin) && is_number_text(
        extents.width,
    ) && is_number_text(extents.height)
}

/// Whether `s` is one token: not empty, and without a separator.
pub open spec fn is_one_token(s: Seq<char>) -> bool {
    s.len() > 0 && forall|i: int| 0 <= i < s.len() ==> !is_separator(#[trigger] s[i])
}

/// The digits that a text begins with are digits, and no more than the text.
pub proof fn lemma_digits_len_counts_digits(s: Seq<char>)
    ensures
        0 <= digits_len(s) <= s.len(),
        forall|k: int| 0 <= k < digits_len(s) ==> is_digit(#[trigger] s[k]),
    decreases s.len(),
{
    if s.len() > 0 && is_digit(s[0]) {
        lemma_digits_len_counts_digits(s.skip(1));
        assert forall|k: int| 0 <= k < digits_len(s) implies is_digit(#[trigger] s[k]) by {
            if k > 0 {
                assert(s.skip(1)[k - 1] == s[k]);
            }
        }
    }
}

/// An exponent holds no separator.
pub proof fn lemma_tail_holds_no_separator(s: Seq<char>)
    requires
        is_tail(s),
    ensures
        forall|i: int| 0 <= i < s.len() ==> !is_separator(#[trigger] s[i]),
{
    if s.len() > 0 {
        let after = s.skip(1);
        let digits = unsigned(after);
        assert forall|i: int| 0 <= i < s.len() implies !is_separator(#[trigger] s[i]) by {
            if i > 0 {
                assert(after[i - 1] == s[i]);
                if after[0] == '+' || after[0] == '-' {
                    if i > 1 {
                        assert(digits[i - 2] == after[i - 1]);
                        assert(is_digit(digits[i - 2]));
                    }
                } else {
                    assert(digits[i - 1] == after[i - 1]);
                    assert(is_digit(digits[i - 1]));
                }
            }
        }
    }
}

/// A decimal numeral is not empty and holds no separator.
pub proof fn lemma_decimal_is_one_token(s: Seq<char>)
    requires
        is_decimal(s),
    ensures
        is_one_token(s),
{
    lemma_digits_len_counts_digits(s);
    let whole = digits_len(s);
    let rest = s.skip(whole);
    if rest.len() > 0 && rest[0] == '.' {
        let after = rest.skip(1);
        lemma_digits_len_counts_digits(after);
        let fraction = digits_len(after);
        let tail = rest.skip(1 + fraction);
        lemma_tail_holds_no_separator(tail);
        assert forall|i: int| 0 <= i < s.len() implies !is_separator(#[trigger] s[i]) by {
            if i < whole {
                assert(is_digit(s[i]));
            } else if i == whole {
                assert(rest[0] == s[i]);
            } else if i < whole + 1 + fraction {
                assert(after[i - whole - 1] == s[i]);
                assert(is_digit(after[i - whole - 1]));
            } else {
                assert(tail[i - whole - 1 - fraction] == s[i]);
            }
        }
    } else {
        lemma_tail_holds_no_separator(rest);
        assert forall|i: int| 0 <= i < s.len() implies !is_separator(#[trigger] s[i]) by {
            if i < whole {
                assert(is_digit(s[i]));
            } else {
                assert(rest[i - whole] == s[i]);
            }
        }
    }
}

/// The text of a number is one token: splitting it yields itself.
pub proof fn lemma_number_is_one_token(s: Seq<char>)
    requires
        is_number_text(s),
    ensures
        is_one_token(s),
{
    let t = unsigned(s);
    if is_special(t) {
        assert forall|i: int| 0 <= i < t.len() implies !is_separator(#[trigger] t[i]) by {}
        assert(t.len() >= 3);
    } else {
        lemma_decimal_is_one_token(t);
    }
    assert forall|i: int| 0 <= i < s.len() implies !is_separator(#[trigger] s[i]) by {
        if s.len() > 0 && (s[0] == '+' || s[0] == '-') {
            if i > 0 {
                assert(t[i - 1] == s[i]);
            }
        }
    }
}

/// A token followed by nothing, or by a separator and more, is the first
/// token of the whole.
pub proof fn lemma_tokens_after_token(word: Seq<char>, rest: Seq<char>)
    requires
        is_one_token(word),
        rest.len() == 0 || is_separator(rest[0]),
    ensures
        tokens(word + rest) == seq![word] + tokens(rest),
{
    let s = word + rest;
    assert(s.skip(0) =~= s);
    assert forall|k: int| 0 <= k < word.len() implies !is_separator(s[k]) by {
        assert(s[k] == word[k]);
    }
    if rest.len() > 0 {
        assert(s[word.len() as int] == rest[0]);
    }
    lemma_token_len_of_run(s, 0, word.len() as int);
    assert(s[0] == word[0]);
    assert(s.take(token_len(s)) =~= word);
    assert(s.skip(token_len(s)) =~= rest);
}

/// A space before a text adds no token.
pub proof fn lemma_tokens_after_space(rest: Seq<char>)
    ensures
        tokens(seq![' '] + rest) == tokens(rest),
{
    let s = seq![' '] + rest;
    assert(s[0] == ' ');
    assert(s.skip(1) =~= rest);
}

/// The tokens of a written coordinate box are its four numbers.
pub proof fn lemma_view_box_tokens(extents: ExtentsView)
    requires
        extents_are_written(extents),
    ensures
        tokens(view_box_text(extents)) == seq![
            extents.xmin,
            extents.ymin,
            extents.width,
            extents.height,
        ],
{
    lemma_number_is_one_token(extents.xmin);
    lemma_number_is_one_token(extents.ymin);
    lemma_number_is_one_token(extents.width);
    lemma_number_is_one_token(extents.height);
    let space = seq![' '];
    let none = Seq::<char>::empty();
    let d = extents.height;
    let c = extents.width + (space + d);
    let b = extents.ymin + (space + c);
    let a = extents.xmin + (space + b);
    assert(a =~= view_box_text(extents));
    assert(extents.height + none =~= d);
    lemma_tokens_after_token(extents.height, none);
    assert((space + d)[0] == ' ');
    lemma_tokens_after_space(d);
    lemma_tokens_after_token(extents.width, space + d);
    assert((space + c)[0] == ' ');
    lemma_tokens_after_space(c);
    lemma_tokens_after_token(extents.ymin, space + c);
    assert((space + b)[0] == ' ');
    lemma_tokens_after_space(b);
    lemma_tokens_after_token(extents.xmin, space + b);
    assert(tokens(none) =~= Seq::<Seq<char>>::empty());
    assert(tokens(a) =~= seq![extents.xmin, extents.ymin, extents.width, extents.height]);
}

/// After the opening tag and the first `upto` circles, the scan stands
/// inside the viewport with those circles.
pub proof fn lemma_scan_of_written_circles(
    circles: Seq<CircleView>,
    extents: ExtentsView,
    width: Option<Seq<char>>,
    height: Option<Seq<char>>,
    upto: int,
)
    requires
        extents_are_written(extents),
        forall|i: int| 0 <= i < circles.len() ==> circle_is_written(#[trigger] circles[i]),
        0 <= upto <= circles.len(),
    ensures
        scan_events(seq![opening_tag(extents, width, height)] + circle_tags(circles).take(upto))
            == (Scan {
            depth: 1,
            extents: Some(extents),
            closed: false,
            failed: false,
            circles: circles.take(upto),
        }),
    decreases upto,
{
    let open = opening_tag(extents, width, height);
    let events = seq![open] + circle_tags(circles).take(upto);
    if upto == 0 {
        lemma_view_box_tokens(extents);
        assert(events.drop_last() =~= Seq::<MarkupEventView>::empty());
        assert(events.last() == open);
        let t = tokens(view_box_text(extents));
        assert(declared_viewport(open->Tag_0.attributes) == Some(
            ExtentsView { xmin: t[0], ymin: t[1], width: t[2], height: t[3] },
        ));
        assert(circles.take(0) =~= Seq::<CircleView>::empty());
        assert(scan_events(events.drop_last()) == scan_start());
    } else {
        lemma_scan_of_written_circles(circles, extents, width, height, upto - 1);
        let circle = circles[upto - 1];
        assert(events.drop_last() =~= seq![open] + circle_tags(circles).take(upto - 1));
        assert(events.last() == circle_tag(circle));
        assert(circle_is_written(circle));
        assert(circle_name().len() != viewport_name().len());
        assert(declared_circle(circle_tag(circle)->Tag_0.attributes) == Some(circle));
        assert(circles.take(upto) =~= circles.take(upto - 1).push(circle));
    }
}

/// Reading a written drawing back recovers it: the same circles in the same
/// order, so the same number of them, each with its centre and its radius
/// as written, and the viewport as written, whatever width and height the
/// drawing declares beside its coordinate box.
pub proof fn lemma_written_drawing_is_read_back(
    circles: Seq<CircleView>,
    extents: ExtentsView,
    width: Option<Seq<char>>,
    height: Option<Seq<char>>,
)
    requires
        extents_are_written(extents),
        forall|i: int| 0 <= i < circles.len() ==> circle_is_written(#[trigger] circles[i]),
    ensures
        drawing_of(written_drawing(circles, extents, width, height)) == Ok::<
            (Seq<CircleView>, ExtentsView),
            HoloError,
        >((circles, extents)),
{
    let open = opening_tag(extents, width, height);
    let events = written_drawing(circles, extents, width, height);
    lemma_scan_of_written_circles(circles, extents, width, height, circles.len() as int);
    assert(circle_tags(circles).take(circles.len() as int) =~= circle_tags(circles));
    assert(circles.take(circles.len() as int) =~= circles);
    assert(events.drop_last() =~= seq![open] + circle_tags(circles));
    assert(events.last() == closing_tag());
}

/// The circles that the circle strategy draws for `points`, each number
/// written by `print`.
pub open spec fn printed_circles(points: Seq<SizedPoint>, print: spec_fn(Scalar) -> Seq<char>)
    -> Seq<CircleView> {
    Seq::new(
        points.len(),
        |i: int|
            CircleView {
                cx: print(points[i].x),
                cy: print(points[i].y),
                r: print(points[i].size),
            },
    )
}

/// A coordinate box, each number written by `print`.
pub open spec fn printed_extents(view_box: Extents, print: spec_fn(Scalar) -> Seq<char>)
    -> ExtentsView {
    ExtentsView {
        xmin: print(view_box.xmin),
        ymin: print(view_box.ymin),
        width: print(view_box.width),
        height: print(view_box.height),
    }
}

/// A drawing of circles that is written out and read back has as many
/// circles as the cloud has points, circle `i` with the centre and the size
/// of point `i` as they were written, and the viewport as it was written.
/// This holds of every way to write a number that writes it as a number.
pub proof fn lemma_scribed_circles_are_read_back(
    points: Seq<SizedPoint>,
    view_box: Extents,
    print: spec_fn(Scalar) -> Seq<char>,
    width: Option<Seq<char>>,
    height: Option<Seq<char>>,
)
    requires
        forall|number: Scalar| is_number_text(#[trigger] print(number)),
    ensures
        drawing_of(
            written_drawing(
                printed_circles(points, print),
                printed_extents(view_box, print),
                width,
                height,
            ),
        ) == Ok::<(Seq<CircleView>, ExtentsView), HoloError>(
            (printed_circles(points, print), printed_extents(view_box, print)),
        ),
        printed_circles(points, print).len() == circles(points).len(),
        printed_circles(points, print).len() == points.len(),
{
    lemma_written_drawing_is_read_back(
        printed_circles(points, print),
        printed_extents(view_box, print),
        width,
        height,
    );
}

} // verus!
