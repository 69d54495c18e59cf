use auth_core::mails::{
    create_verification_link, forgot_password_email_request, render_template, replace_all,
    verification_email_request, welcome_email_request,
};

#[test]
fn replace_all_substitutes_every_occurrence() {
    assert_eq!(replace_all("hello {{name}}!", "{{name}}", "Ann"), "hello Ann!");
    assert_eq!(replace_all("{{x}} and {{x}}", "{{x}}", "y"), "y and y");
    assert_eq!(replace_all("nothing here", "{{x}}", "y"), "nothing here");
    assert_eq!(replace_all("", "{{x}}", "y"), "");
}

#[test]
fn replace_all_scans_left_to_right_without_reexamining() {
    assert_eq!(replace_all("aaaa", "aa", "b"), "bb");
    assert_eq!(replace_all("aaa", "aa", "b"), "ba");
    assert_eq!(replace_all("aba", "ab", "ba"), "baa");
    assert_eq!(replace_all("aa", "a", "aa"), "aaaa");
}

#[test]
fn replace_all_agrees_with_the_standard_replace() {
    let cases = [
        ("the {{a}} sat on the {{a}}", "{{a}}", "mat"),
        ("xxx", "x", ""),
        ("abcabc", "bc", "BC"),
    ];
    for (s, pat, sub) in cases {
        assert_eq!(replace_all(s, pat, sub), s.replace(pat, sub));
    }
}

#[test]
fn render_template_applies_placeholders_in_order() {
    let placeholders = vec![
        ("{{username}}".to_string(), "Ann".to_string()),
        ("{{link}}".to_string(), "https://x.test/verify?token=t".to_string()),
    ];
    let body = render_template("Hi {{username}}, open {{link}}.", &placeholders);
    assert_eq!(body, "Hi Ann, open https://x.test/verify?token=t.");
}

#[test]
fn render_template_skips_empty_placeholder_keys() {
    let placeholders = vec![("".to_string(), "boom".to_string())];
    assert_eq!(render_template("untouched", &placeholders), "untouched");
}

#[test]
fn verification_email_request_carries_the_link() {
    let r = verification_email_request("https://front.example", "Ann", "tok-1");
    assert_eq!(r.subject, "Email Verification");
    assert_eq!(r.placeholders.len(), 3);
    assert_eq!(r.placeholders[0], ("{{username}}".to_string(), "Ann".to_string()));
    assert_eq!(
        r.placeholders[1],
        (
            "{{verification_link}}".to_string(),
            "https://front.example/confirm-auth/verify-email?token=tok-1".to_string()
        )
    );
    assert_eq!(r.placeholders[2], ("{{login_url}}".to_string(), "https://front.example".to_string()));
}

#[test]
fn welcome_and_reset_requests_carry_their_placeholders() {
    let w = welcome_email_request("Ann", "x.com/profile", "https://github.example/ann");
    assert_eq!(w.subject, "Welcome to Application");
    assert_eq!(w.placeholders[1], ("{{x_url}}".to_string(), "x.com/profile".to_string()));

    let link = create_verification_link("https://front.example/confirm-auth/reset-password", "r-1");
    let f = forgot_password_email_request("Ann", &link);
    assert_eq!(f.subject, "Reset your Password");
    assert_eq!(
        f.placeholders[1],
        (
            "{{reset_link}}".to_string(),
            "https://front.example/confirm-auth/reset-password?token=r-1".to_string()
        )
    );
}
