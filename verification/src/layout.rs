use vstd::prelude::*;

verus! {

/// Where to place a box so that it sits centered on the screen: the offsets
/// of its top-left corner inside a span of `span_w` by `span_h` pixels.
/// When `y_span` is given, the box is centered vertically inside that span
/// instead of the whole height.
pub fn centered_rect_origin(span_w: u32, span_h: u32, item_w: u32, item_h: u32, y_span: Option<
    u32,
>) -> (r: (u32, u32))
    requires
        item_w <= span_w,
        item_h <= span_h,
        y_span matches Some(y) ==> item_h <= y,
    ensures
        r.0 == (span_w - item_w) / 2,
        y_span matches Some(y) ==> r.1 == (y - item_h) / 2,
        y_span is None ==> r.1 == (span_h - item_h) / 2,
{
    let x = (span_w - item_w) / 2;
    let y = match y_span {
        Some(pos) => (pos - item_h) / 2,
        None => (span_h - item_h) / 2,
    };
    (x, y)
}

/// One step of greedily filling wrapped lines. `open_line` is the line being
/// filled, every word in it carrying a trailing space, and the candidate
/// `open_line + word + " "` has been measured at `candidate_width` pixels.
/// When the candidate fits the `max_width` bound it becomes the open line;
/// otherwise the open line is complete and the word opens the next one.
pub fn wrap_step(open_line: String, word: &str, candidate_width: u32, max_width: u32) -> (r: (
    String,
    Option<String>,
))
    ensures
        candidate_width <= max_width ==> r.0@ == open_line@ + word@ + " "@ && r.1 is None,
        candidate_width > max_width ==> r.0@ == word@ + " "@,
        candidate_width > max_width ==> (r.1 matches Some(done) && done@ == open_line@),
{
    if candidate_width <= max_width {
        let mut line = open_line;
        line.append(word);
        line.append(" ");
        (line, None)
    } else {
        let mut next = String::from_str(word);
        next.append(" ");
        (next, Some(open_line))
    }
}

} // verus!
