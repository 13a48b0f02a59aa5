//! The status window: what its page is painted with and how it is updated.

use vstd::prelude::*;

use crate::text;
use crate::text::{cat5, replace};

verus! {

/// Lifecycle snapshot for the status row, mirroring the tray's status. Its JSON shape is a
/// contract with the page's `__status` handler.
#[derive(Debug)]
pub struct StatusView {
    /// `"starting"`, `"running"`, or `"failed"`.
    pub state: &'static str,
    pub port: Option<u16>,
    pub message: Option<String>,
}

/// Health and board-count snapshot from the tray's poller.
#[derive(Debug, Clone, Copy, PartialEq, Eq, Structural)]
pub struct Telemetry {
    pub boards: usize,
    pub healthy: bool,
}

impl Default for Telemetry {
    /// The state before the first poll: no boards, unhealthy.
    fn default() -> (t: Telemetry)
        ensures
            t == (Telemetry { boards: 0, healthy: false }),
    {
        Telemetry { boards: 0, healthy: false }
    }
}

/// The script that calls the page-global function `fn_name` with a JSON argument.
pub fn script(fn_name: &str, json: &str) -> (s: String)
    ensures
        s@ == "window."@ + fn_name@ + "("@ + json@ + ")"@,
{
    cat5("window.", fn_name, "(", json, ")")
}

/// Fills the page template with the brand glyph and then with the initial state, so that the page
/// paints correctly before any update arrives.
pub fn render_html(template: &str, glyph: &str, status_json: &str, telemetry_json: &str) -> (page: String)
    ensures
        page@ == text::replaced(
            text::replaced(
                text::replaced(template@, "__GLYPH_SVG__"@, glyph@),
                "__INIT_STATUS__"@,
                status_json@,
            ),
            "__INIT_TELEMETRY__"@,
            telemetry_json@,
        ),
{
    proof {
        reveal_strlit("__GLYPH_SVG__");
        reveal_strlit("__INIT_STATUS__");
        reveal_strlit("__INIT_TELEMETRY__");
    }
    let with_glyph = replace(template, "__GLYPH_SVG__", glyph);
    let with_status = replace(with_glyph.as_str(), "__INIT_STATUS__", status_json);
    replace(with_status.as_str(), "__INIT_TELEMETRY__", telemetry_json)
}

/// A page with one place each for the glyph, the status and the telemetry, in this order, is filled in
/// at these places and nowhere else, as long as nothing that is filled in names a place itself.
pub proof fn a_page_is_filled_in_at_its_places(
    template: &str,
    glyph: &str,
    status_json: &str,
    telemetry_json: &str,
    page: String,
    a: Seq<char>,
    b: Seq<char>,
    c: Seq<char>,
    d: Seq<char>,
)
    requires
        call_ensures(render_html, (template, glyph, status_json, telemetry_json), page),
        ({
            let (g, s, t) = ("__GLYPH_SVG__"@, "__INIT_STATUS__"@, "__INIT_TELEMETRY__"@);
            let front = a + glyph@ + b;
            let middle = front + status_json@ + c;
            &&& template@ == a + g + (b + s + (c + t + d))
            &&& forall|i: int| 0 <= i < a.len() ==> !g.is_prefix_of(#[trigger] template@.skip(i))
            &&& forall|i: int| 0 <= i < (b + s + (c + t + d)).len() ==> !g.is_prefix_of(#[trigger] (b + s + (c + t + d)).skip(i))
            &&& forall|i: int| 0 <= i < front.len() ==> !s.is_prefix_of(#[trigger] (front + s + (c + t + d)).skip(i))
            &&& forall|i: int| 0 <= i < (c + t + d).len() ==> !s.is_prefix_of(#[trigger] (c + t + d).skip(i))
            &&& forall|i: int| 0 <= i < middle.len() ==> !t.is_prefix_of(#[trigger] (middle + t + d).skip(i))
            &&& forall|i: int| 0 <= i < d.len() ==> !t.is_prefix_of(#[trigger] d.skip(i))
        }),
    ensures
        page@ == a + glyph@ + b + status_json@ + c + telemetry_json@ + d,
{
    reveal_strlit("__GLYPH_SVG__");
    reveal_strlit("__INIT_STATUS__");
    reveal_strlit("__INIT_TELEMETRY__");
    let (g, s, t) = ("__GLYPH_SVG__"@, "__INIT_STATUS__"@, "__INIT_TELEMETRY__"@);
    let front = a + glyph@ + b;
    let middle = front + status_json@ + c;
    text::replacing_goes_from_occurrence_to_occurrence(a, g, b + s + (c + t + d), glyph@);
    text::nothing_else_is_replaced(b + s + (c + t + d), g, glyph@);
    assert(a + glyph@ + (b + s + (c + t + d)) =~= front + s + (c + t + d));
    text::replacing_goes_from_occurrence_to_occurrence(front, s, c + t + d, status_json@);
    text::nothing_else_is_replaced(c + t + d, s, status_json@);
    assert(front + status_json@ + (c + t + d) =~= middle + t + d);
    text::replacing_goes_from_occurrence_to_occurrence(middle, t, d, telemetry_json@);
    text::nothing_else_is_replaced(d, t, telemetry_json@);
}

/// The page is updated by a call of its function with the JSON as the argument.
pub proof fn a_script_calls_the_function_with_the_json(fn_name: &str, json: &str, s: String)
    requires
        call_ensures(script, (fn_name, json), s),
    ensures
        s@ == "window."@ + fn_name@ + seq!['('] + json@ + seq![')'],
{
    reveal_strlit("(");
    reveal_strlit(")");
    assert("("@ =~= seq!['(']);
    assert(")"@ =~= seq![')']);
}

} // verus!
