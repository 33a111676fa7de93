use vstd::prelude::*;

verus! {

/// The sign-up form.
pub struct Signup {
    pub name: String,
    pub email: String,
    pub phone: String,
    pub course: String,
    pub password: String,
}

pub struct SignupView {
    pub name: Seq<char>,
    pub email: Seq<char>,
    pub phone: Seq<char>,
    pub course: Seq<char>,
    pub password: Seq<char>,
}

impl View for Signup {
    type V = SignupView;

    open spec fn view(&self) -> SignupView {
        SignupView {
            name: self.name@,
            email: self.email@,
            phone: self.phone@,
            course: self.course@,
            password: self.password@,
        }
    }
}

/// The login form; also the shape of a stored account (e-mail and
/// password hash).
pub struct Login {
    pub email: String,
    pub password: String,
}

pub struct LoginView {
    pub email: Seq<char>,
    pub password: Seq<char>,
}

impl View for Login {
    type V = LoginView;

    open spec fn view(&self) -> LoginView {
        LoginView { email: self.email@, password: self.password@ }
    }
}

/// The e-mail verification form.
pub struct VerifyEmail {
    pub otp: String,
}

/// The e-mail address given in the query of the verification request.
pub struct Email {
    pub email: String,
}

/// The password reset form: the mailed code and the new password.
pub struct ForgottenPassword {
    pub otp: String,
    pub password: String,
}

pub struct ForgottenPasswordView {
    pub otp: Seq<char>,
    pub password: Seq<char>,
}

impl View for ForgottenPassword {
    type V = ForgottenPasswordView;

    open spec fn view(&self) -> ForgottenPasswordView {
        ForgottenPasswordView { otp: self.otp@, password: self.password@ }
    }
}

/// The form that names an account by its e-mail address.
pub struct EmailInfo {
    pub email: String,
}

} // verus!
