use vstd::prelude::*;
use vstd::string::StringExecFns;

verus! {

/// The JSON text of a string value.
pub uninterp spec fn json_quoted(s: Seq<char>) -> Seq<char>;

/// Relies on serde_json's `Value::String` and its `Display`: the compact JSON
/// text of the string, quotes and escapes included.
#[verifier::external_body]
fn json_quote(s: &str) -> (r: String)
    ensures
        r@ == json_quoted(s@),
{
    serde_json::Value::String(s.to_string()).to_string()
}

/// One line of output for the status bar, without its newline: a JSON object
/// with `text` and `tooltip`, and `"class":"notify"` first when highlighted
/// (keys in sorted order).
pub open spec fn status_line_spec(text: Seq<char>, tooltip: Seq<char>, highlight: bool) -> Seq<
    char,
> {
    let head = if highlight {
        "{\"class\":\"notify\",\"text\":"@
    } else {
        "{\"text\":"@
    };
    head + json_quoted(text) + ",\"tooltip\":"@ + json_quoted(tooltip) + "}"@
}

/// Builds the status bar's JSON record from the bar text and the tooltip.
pub fn status_line(text: &str, tooltip: &str, highlight: bool) -> (r: String)
    ensures
        r@ == status_line_spec(text@, tooltip@, highlight),
{
    let mut out = if highlight {
        String::from_str("{\"class\":\"notify\",\"text\":")
    } else {
        String::from_str("{\"text\":")
    };
    let t = json_quote(text);
    out.append(t.as_str());
    out.append(",\"tooltip\":");
    let tt = json_quote(tooltip);
    out.append(tt.as_str());
    out.append("}");
    out
}

} // verus!
