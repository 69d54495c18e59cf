//! Building of the notification emails: the links they carry, the
//! placeholder lists of each mail kind, and the rendering of a template
//! body. Delivery itself is the caller's concern: the services hand the raw
//! token back, and the handler layer renders and triggers the notification
//! sink.
use vstd::prelude::*;

verus! {

/// The link a pending-action email carries: the base URL with the token as
/// its query.
pub open spec fn verification_link_spec(base_url: Seq<char>, token: Seq<char>) -> Seq<char> {
    base_url + "?token="@ + token
}

/// Appends the token query to the base URL.
pub fn create_verification_link(base_url: &str, token: &str) -> (r: String)
    ensures
        r@ == verification_link_spec(base_url@, token@),
{
    let mut s = base_url.to_owned();
    s.append("?token=");
    s.append(token);
    s
}

/// `s` with every occurrence of `pat` replaced by `sub`, scanning left to
/// right and never re-examining substituted text, as `str::replace` does.
/// An empty pattern replaces nothing.
pub open spec fn spec_replace(s: Seq<char>, pat: Seq<char>, sub: Seq<char>) -> Seq<char>
    decreases s.len(),
{
    if pat.len() == 0 || s.len() < pat.len() {
        s
    } else if s.subrange(0, pat.len() as int) == pat {
        sub + spec_replace(s.skip(pat.len() as int), pat, sub)
    } else {
        seq![s[0]] + spec_replace(s.drop_first(), pat, sub)
    }
}

/// Whether `pat` occurs in `s` starting at character `at`.
fn matches_at(s: &str, at: usize, pat: &str, n: usize, m: usize) -> (r: bool)
    requires
        n == s@.len(),
        m == pat@.len(),
        at <= n,
        m <= n - at,
    ensures
        r == (s@.subrange(at as int, at as int + m) == pat@),
{
    let mut k: usize = 0;
    while k < m
        invariant
            n == s@.len(),
            m == pat@.len(),
            at <= n,
            m <= n - at,
            k <= m,
            forall|t: int| 0 <= t < k ==> s@[at + t] == pat@[t],
        decreases m - k,
    {
        if s.get_char(at + k) != pat.get_char(k) {
            proof {
                assert(s@.subrange(at as int, at as int + m)[k as int] == s@[at + k]);
            }
            return false;
        }
        k = k + 1;
    }
    proof {
        assert(s@.subrange(at as int, at as int + m) =~= pat@);
    }
    true
}

/// Replaces every occurrence of `pat` in `s` by `sub`, scanning left to
/// right.
pub fn replace_all(s: &str, pat: &str, sub: &str) -> (r: String)
    requires
        pat@.len() >= 1,
    ensures
        r@ == spec_replace(s@, pat@, sub@),
{
    let n = s.unicode_len();
    let m = pat.unicode_len();
    let mut out = String::new();
    let mut i: usize = 0;
    proof {
        assert(s@.skip(0) =~= s@);
    }
    while m <= n - i && i < n
        invariant
            n == s@.len(),
            m == pat@.len(),
            m >= 1,
            i <= n,
            spec_replace(s@, pat@, sub@) == out@ + spec_replace(s@.skip(i as int), pat@, sub@),
        decreases n - i,
    {
        let ghost rest = s@.skip(i as int);
        proof {
            assert(rest.len() == n - i);
            assert(forall|t: int| 0 <= t < rest.len() ==> #[trigger] rest[t] == s@[i + t]);
        }
        if matches_at(s, i, pat, n, m) {
            proof {
                assert(rest.subrange(0, m as int) =~= s@.subrange(i as int, i as int + m));
                assert(rest.skip(m as int) =~= s@.skip(i + m));
            }
            out.append(sub);
            i = i + m;
        } else {
            proof {
                assert(rest.subrange(0, m as int) =~= s@.subrange(i as int, i as int + m));
                assert(rest.drop_first() =~= s@.skip(i + 1));
                assert(seq![rest[0]] =~= s@.subrange(i as int, i + 1));
            }
            let c = s.substring_char(i, i + 1);
            out.append(c);
            i = i + 1;
        }
    }
    let tail = s.substring_char(i, n);
    proof {
        assert(s@.subrange(i as int, n as int) =~= s@.skip(i as int));
        assert(spec_replace(s@.skip(i as int), pat@, sub@) == s@.skip(i as int));
    }
    out.append(tail);
    out
}

/// The mail body: `template` with each placeholder in turn replaced by its
/// value, in list order.
pub open spec fn spec_render(template: Seq<char>, placeholders: Seq<(String, String)>) -> Seq<char>
    decreases placeholders.len(),
{
    if placeholders.len() == 0 {
        template
    } else {
        spec_render(
            spec_replace(template, placeholders[0].0@, placeholders[0].1@),
            placeholders.drop_first(),
        )
    }
}

/// Renders a mail template: substitutes each placeholder of the list into
/// the body, in order.
pub fn render_template(template: &str, placeholders: &Vec<(String, String)>) -> (r: String)
    ensures
        r@ == spec_render(template@, placeholders@),
{
    let mut body = template.to_owned();
    let k = placeholders.len();
    let mut j: usize = 0;
    proof {
        assert(placeholders@.skip(0) =~= placeholders@);
    }
    while j < k
        invariant
            k == placeholders@.len(),
            j <= k,
            spec_render(template@, placeholders@) == spec_render(
                body@,
                placeholders@.skip(j as int),
            ),
        decreases k - j,
    {
        let ghost ps = placeholders@.skip(j as int);
        proof {
            assert(ps[0] == placeholders@[j as int]);
            assert(ps.drop_first() =~= placeholders@.skip(j + 1));
        }
        let pat = &placeholders[j].0;
        let sub = &placeholders[j].1;
        if pat.as_str().unicode_len() >= 1 {
            body = replace_all(body.as_str(), pat.as_str(), sub.as_str());
        }
        j = j + 1;
    }
    body
}

/// What a notification asks the sink to deliver: a subject, the template
/// the body is rendered from, and the placeholder values to substitute.
pub struct EmailRequest {
    pub subject: String,
    pub template_path: String,
    pub placeholders: Vec<(String, String)>,
}

/// The email-verification notification: carries the verification link
/// built from the front end's base URL and the pending token, and the
/// front end's address as the login link.
pub fn verification_email_request(front_url: &str, username: &str, token: &str) -> (r: EmailRequest)
    ensures
        r.subject@ == "Email Verification"@,
        r.template_path@ == "templates/verification_email.html"@,
        r.placeholders@.len() == 3,
        r.placeholders@[0].0@ == "{{username}}"@,
        r.placeholders@[0].1@ == username@,
        r.placeholders@[1].0@ == "{{verification_link}}"@,
        r.placeholders@[1].1@ == verification_link_spec(
            front_url@ + "/confirm-auth/verify-email"@,
            token@,
        ),
        r.placeholders@[2].0@ == "{{login_url}}"@,
        r.placeholders@[2].1@ == front_url@,
{
    let mut base = front_url.to_owned();
    base.append("/confirm-auth/verify-email");
    let link = create_verification_link(base.as_str(), token);
    let mut placeholders: Vec<(String, String)> = Vec::new();
    placeholders.push(("{{username}}".to_owned(), username.to_owned()));
    placeholders.push(("{{verification_link}}".to_owned(), link));
    placeholders.push(("{{login_url}}".to_owned(), front_url.to_owned()));
    EmailRequest {
        subject: "Email Verification".to_owned(),
        template_path: "templates/verification_email.html".to_owned(),
        placeholders,
    }
}

/// The welcome notification sent after a successful verification.
pub fn welcome_email_request(username: &str, x_url: &str, github_url: &str) -> (r: EmailRequest)
    ensures
        r.subject@ == "Welcome to Application"@,
        r.template_path@ == "templates/welcome_email.html"@,
        r.placeholders@.len() == 3,
        r.placeholders@[0].0@ == "{{username}}"@,
        r.placeholders@[0].1@ == username@,
        r.placeholders@[1].0@ == "{{x_url}}"@,
        r.placeholders@[1].1@ == x_url@,
        r.placeholders@[2].0@ == "{{github_url}}"@,
        r.placeholders@[2].1@ == github_url@,
{
    let mut placeholders: Vec<(String, String)> = Vec::new();
    placeholders.push(("{{username}}".to_owned(), username.to_owned()));
    placeholders.push(("{{x_url}}".to_owned(), x_url.to_owned()));
    placeholders.push(("{{github_url}}".to_owned(), github_url.to_owned()));
    EmailRequest {
        subject: "Welcome to Application".to_owned(),
        template_path: "templates/welcome_email.html".to_owned(),
        placeholders,
    }
}

/// The password-reset notification: carries the reset link the caller
/// built from the reset token.
pub fn forgot_password_email_request(username: &str, reset_link: &str) -> (r: EmailRequest)
    ensures
        r.subject@ == "Reset your Password"@,
        r.template_path@ == "templates/reset_password_email.html"@,
        r.placeholders@.len() == 2,
        r.placeholders@[0].0@ == "{{username}}"@,
        r.placeholders@[0].1@ == username@,
        r.placeholders@[1].0@ == "{{reset_link}}"@,
        r.placeholders@[1].1@ == reset_link@,
{
    let mut placeholders: Vec<(String, String)> = Vec::new();
    placeholders.push(("{{username}}".to_owned(), username.to_owned()));
    placeholders.push(("{{reset_link}}".to_owned(), reset_link.to_owned()));
    EmailRequest {
        subject: "Reset your Password".to_owned(),
        template_path: "templates/reset_password_email.html".to_owned(),
        placeholders,
    }
}

} // verus!
