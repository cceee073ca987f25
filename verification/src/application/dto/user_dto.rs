//! User commands of the application layer.
use vstd::prelude::*;
use crate::base::validation::{lemma_flag_appended, email_valid, finish, flag, is_email, note, outcome_is};

verus! {

/// A registration: the user name and the password must match the configured
/// patterns, the e-mail address must be one, and the code sent to it has 6
/// characters.
#[derive(Debug)]
pub struct UserCmd {
    pub username: String,
    pub password: String,
    pub email: String,
    pub email_code: String,
}

/// A request for a verification code sent to an e-mail address.
#[derive(Debug)]
pub struct EmailVerifyCmd {
    pub email: String,
}

/// The failing fields of a registration, given whether the user name and the
/// password match their patterns.
pub open spec fn user_violations(c: UserCmd, username_matches: bool, password_matches: bool) -> Seq<
    Seq<char>,
> {
    flag(!username_matches, "username"@) + flag(!password_matches, "password"@) + flag(
        !email_valid(c.email@),
        "email"@,
    ) + flag(c.email_code@.len() != 6, "email_code"@)
}

impl UserCmd {
    /// Validates the fields, given the outcome of matching the user name and
    /// the password against the configured patterns.
    pub fn validate(&self, username_matches: bool, password_matches: bool) -> (r: Result<
        (),
        Vec<&'static str>,
    >)
        ensures
            outcome_is(r, user_violations(*self, username_matches, password_matches)),
    {
        let mut bad: Vec<&'static str> = Vec::new();
        note(&mut bad, !username_matches, "username");
        note(&mut bad, !password_matches, "password");
        note(&mut bad, !is_email(self.email.as_str()), "email");
        note(&mut bad, self.email_code.as_str().unicode_len() != 6, "email_code");
        finish(bad)
    }
}

pub open spec fn email_verify_violations(c: EmailVerifyCmd) -> Seq<Seq<char>> {
    flag(!email_valid(c.email@), "email"@)
}

impl EmailVerifyCmd {
    pub fn validate(&self) -> (r: Result<(), Vec<&'static str>>)
        ensures
            outcome_is(r, email_verify_violations(*self)),
    {
        let mut bad: Vec<&'static str> = Vec::new();
        note(&mut bad, !is_email(self.email.as_str()), "email");
        finish(bad)
    }
}

/// The check of the user name against its pattern, given whether it matches.
pub fn validate_username(matches: bool) -> (r: Result<(), &'static str>)
    ensures
        matches <==> r is Ok,
        r matches Err(m) ==> m@ == "username does not match pattern"@,
{
    if !matches {
        return Err("username does not match pattern");
    }
    Ok(())
}

/// The check of the password against its pattern, given whether it matches.
pub fn validate_password(matches: bool) -> (r: Result<(), &'static str>)
    ensures
        matches <==> r is Ok,
        r matches Err(m) ==> m@ == "password does not match pattern"@,
{
    if !matches {
        return Err("password does not match pattern");
    }
    Ok(())
}

/// A registration is refused for its user name and its password exactly
/// when they do not match their patterns, for its e-mail address exactly
/// when it is not one, and for its code exactly when the code does not have
/// 6 characters.
pub proof fn law_user_cmd_rules(c: UserCmd, username_matches: bool, password_matches: bool)
    ensures
        user_violations(c, username_matches, password_matches).contains("username"@) <==> !username_matches,
        user_violations(c, username_matches, password_matches).contains("password"@) <==> !password_matches,
        user_violations(c, username_matches, password_matches).contains("email"@) <==> !email_valid(c.email@),
        user_violations(c, username_matches, password_matches).contains("email_code"@) <==> c.email_code@.len() != 6,
        user_violations(c, username_matches, password_matches).len() == 0 <==> (!(!username_matches) && !(!password_matches) && !(!email_valid(c.email@)) && !(c.email_code@.len() != 6)),
        forall|x: Seq<char>| #[trigger] user_violations(c, username_matches, password_matches).contains(x) ==> x == "username"@ || x == "password"@ || x == "email"@ || x == "email_code"@,
{
    reveal_strlit("username");
    reveal_strlit("password");
    reveal_strlit("email");
    reveal_strlit("email_code");
    let b0 = !username_matches;
    let b1 = !password_matches;
    let b2 = !email_valid(c.email@);
    let b3 = c.email_code@.len() != 6;
    lemma_flag_appended(Seq::empty(), b0, "username"@);
    assert(Seq::<Seq<char>>::empty() + flag(b0, "username"@) =~= flag(b0, "username"@));
    lemma_flag_appended(flag(b0, "username"@), b1, "password"@);
    lemma_flag_appended(flag(b0, "username"@) + flag(b1, "password"@), b2, "email"@);
    lemma_flag_appended(flag(b0, "username"@) + flag(b1, "password"@) + flag(b2, "email"@), b3, "email_code"@);
    assert("username"@[0] != "password"@[0]);
    assert("username"@.len() != "email"@.len());
    assert("username"@.len() != "email_code"@.len());
    assert("password"@.len() != "email"@.len());
    assert("password"@.len() != "email_code"@.len());
    assert("email"@.len() != "email_code"@.len());
}

/// A request for a code is refused exactly when its address is not one.
pub proof fn law_email_verify_cmd_rules(c: EmailVerifyCmd)
    ensures
        email_verify_violations(c).contains("email"@) <==> !email_valid(c.email@),
        email_verify_violations(c).len() == 0 <==> (!(!email_valid(c.email@))),
        forall|x: Seq<char>| #[trigger] email_verify_violations(c).contains(x) ==> x == "email"@,
{
    reveal_strlit("email");
    let b0 = !email_valid(c.email@);
    lemma_flag_appended(Seq::empty(), b0, "email"@);
    assert(Seq::<Seq<char>>::empty() + flag(b0, "email"@) =~= flag(b0, "email"@));
}

} // verus!
