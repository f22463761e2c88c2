use vstd::prelude::*;
use vstd::string::StrSliceExecFns;
use vstd::string::StringExecFns;

verus! {

/// Text with every non-overlapping occurrence of `pat` replaced by `rep`,
/// scanning from the left; an empty pattern leaves the text unchanged.
pub open spec fn replace_all(s: Seq<char>, pat: Seq<char>, rep: Seq<char>) -> Seq<char>
    decreases s.len(),
{
    if pat.len() == 0 || s.len() == 0 {
        s
    } else if s.len() >= pat.len() && s.subrange(0, pat.len() as int) == pat {
        rep + replace_all(s.subrange(pat.len() as int, s.len() as int), pat, rep)
    } else {
        seq![s[0]] + replace_all(s.subrange(1, s.len() as int), pat, rep)
    }
}

/// Placeholder for the application name in a format template.
pub open spec fn app_token() -> Seq<char> {
    seq!['{', 'a', 'p', 'p', '}']
}

/// Placeholder for the summary in a format template.
pub open spec fn summary_token() -> Seq<char> {
    seq!['{', 's', 'u', 'm', 'm', 'a', 'r', 'y', '}']
}

/// Placeholder for the body in a format template.
pub open spec fn body_token() -> Seq<char> {
    seq!['{', 'b', 'o', 'd', 'y', '}']
}

/// What a template becomes for the given fields: the application name is
/// substituted first, then the summary, then the body.
pub open spec fn render_template(
    format: Seq<char>,
    app: Seq<char>,
    summary: Seq<char>,
    body: Seq<char>,
) -> Seq<char> {
    replace_all(
        replace_all(replace_all(format, app_token(), app), summary_token(), summary),
        body_token(),
        body,
    )
}

/// Abstract value of a notification.
pub struct NotificationView {
    pub app_name: Seq<char>,
    pub summary: Seq<char>,
    pub body: Seq<char>,
    pub read: bool,
}

/// One received notification.
#[derive(Debug)]
pub struct Notification {
    pub app_name: String,
    pub summary: String,
    pub body: String,
    pub read: bool,
}

impl View for Notification {
    type V = NotificationView;

    open spec fn view(&self) -> NotificationView {
        NotificationView {
            app_name: self.app_name@,
            summary: self.summary@,
            body: self.body@,
            read: self.read,
        }
    }
}

/// Whether `pat` occurs in `s` at character position `i`.
fn occurs_at(s: &str, i: usize, n: usize, pat: &str, k: usize) -> (r: bool)
    requires
        n == s@.len(),
        k == pat@.len(),
        i <= n,
    ensures
        r == (i + k <= n && s@.subrange(i as int, i + k) == pat@),
{
    if k > n || i > n - k {
        return false;
    }
    let mut j: usize = 0;
    while j < k
        invariant
            j <= k,
            i + k <= n,
            n == s@.len(),
            k == pat@.len(),
            forall|t: int| 0 <= t < j ==> s@[i + t] == pat@[t],
        decreases k - j,
    {
        if s.get_char(i + j) != pat.get_char(j) {
            assert(s@.subrange(i as int, i + k)[j as int] != pat@[j as int]);
            return false;
        }
        j = j + 1;
    }
    assert(s@.subrange(i as int, i + k) =~= pat@);
    true
}

/// `s` with every non-overlapping occurrence of `pat` replaced by `rep`,
/// scanning from the left.
pub fn replace_all_exec(s: &str, pat: &str, rep: &str) -> (r: String)
    requires
        pat@.len() > 0,
    ensures
        r@ == replace_all(s@, pat@, rep@),
{
    let n = s.unicode_len();
    let k = pat.unicode_len();
    let mut out = String::new();
    let mut i: usize = 0;
    assert(s@.subrange(0, n as int) =~= s@);
    while i < n
        invariant
            i <= n,
            n == s@.len(),
            k == pat@.len(),
            k > 0,
            replace_all(s@, pat@, rep@) == out@ + replace_all(
                s@.subrange(i as int, n as int),
                pat@,
                rep@,
            ),
        decreases n - i,
    {
        let ghost rest = s@.subrange(i as int, n as int);
        let ghost before = out@;
        if occurs_at(s, i, n, pat, k) {
            assert(rest.subrange(0, k as int) =~= s@.subrange(i as int, i + k));
            assert(rest.subrange(k as int, rest.len() as int) =~= s@.subrange(i + k, n as int));
            out.append(rep);
            i = i + k;
            assert(before + replace_all(rest, pat@, rep@) =~= out@ + replace_all(
                s@.subrange(i as int, n as int),
                pat@,
                rep@,
            ));
        } else {
            assert(rest.len() >= k ==> rest.subrange(0, k as int) =~= s@.subrange(
                i as int,
                i + k,
            ));
            assert(rest.subrange(1, rest.len() as int) =~= s@.subrange(i + 1, n as int));
            let one = s.substring_char(i, i + 1);
            assert(one@ =~= seq![rest[0]]);
            out.append(one);
            i = i + 1;
            assert(before + replace_all(rest, pat@, rep@) =~= out@ + replace_all(
                s@.subrange(i as int, n as int),
                pat@,
                rep@,
            ));
        }
    }
    assert(out@ + replace_all(s@.subrange(n as int, n as int), pat@, rep@) =~= out@);
    out
}

impl Notification {
    /// The template with `{app}`, `{summary}` and `{body}` replaced by this
    /// notification's fields, in that order.
    pub fn format_with(&self, format: &str) -> (r: String)
        ensures
            r@ == render_template(format@, self.app_name@, self.summary@, self.body@),
    {
        proof {
            reveal_strlit("{app}");
            reveal_strlit("{summary}");
            reveal_strlit("{body}");
            assert("{app}"@ =~= app_token());
            assert("{summary}"@ =~= summary_token());
            assert("{body}"@ =~= body_token());
        }
        let with_app = replace_all_exec(format, "{app}", self.app_name.as_str());
        let with_summary = replace_all_exec(with_app.as_str(), "{summary}", self.summary.as_str());
        replace_all_exec(with_summary.as_str(), "{body}", self.body.as_str())
    }
}

} // verus!
