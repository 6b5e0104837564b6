//! The login/registration form state: the typed fields, the validation
//! verdicts shown to the user, and the password checks behind them.
use vstd::prelude::*;

verus! {

/// What the registration form can complain about.
#[derive(Clone, Debug)]
pub enum RegistrationError {
    DifferentPasswords,
    IrrelevantPassword,
    UserAlreadyExists,
}

/// What the login form can complain about.
#[derive(Clone, Debug)]
pub enum LoginError {
    WrongPasswordOrLogin,
}

/// A character the password field accepts: an ASCII letter or digit.
pub open spec fn is_password_char(c: char) -> bool {
    ||| ('a' as u32) <= (c as u32) <= ('z' as u32)
    ||| ('A' as u32) <= (c as u32) <= ('Z' as u32)
    ||| ('0' as u32) <= (c as u32) <= ('9' as u32)
}

/// The password requirement: ASCII letters and digits only, and more than
/// eight characters long.
pub open spec fn spec_password_relevant(s: Seq<char>) -> bool {
    (forall|i: int| 0 <= i < s.len() ==> is_password_char(s[i])) && s.len() > 8
}

/// Does the password meet the registration requirement?
pub fn is_password_relevant(password: &str) -> (r: bool)
    ensures
        r == spec_password_relevant(password@),
{
    let n = password.unicode_len();
    let mut i: usize = 0;
    while i < n
        invariant
            n == password@.len(),
            0 <= i <= n,
            forall|j: int| 0 <= j < i ==> is_password_char(password@[j]),
        decreases n - i,
    {
        let c = password.get_char(i);
        let v = c as u32;
        let lower = v >= ('a' as u32) && v <= ('z' as u32);
        let upper = v >= ('A' as u32) && v <= ('Z' as u32);
        let digit = v >= ('0' as u32) && v <= ('9' as u32);
        if !(lower || upper || digit) {
            return false;
        }
        i += 1;
    }
    n > 8
}

/// Whether both entries exist and agree.
pub open spec fn spec_passwords_identical(password: Seq<char>, repeated: Option<Seq<char>>) -> bool {
    match repeated {
        None => false,
        Some(r) => r == password,
    }
}

/// Does the repeated entry exist and match the password?
pub fn is_passwords_identical(password: &str, repeated_password: Option<&String>) -> (r: bool)
    ensures
        r == spec_passwords_identical(
            password@,
            match repeated_password {
                None => None,
                Some(s) => Some(s@),
            },
        ),
{
    match repeated_password {
        None => false,
        Some(repeated) => {
            let owned = password.to_owned();
            owned == *repeated
        },
    }
}

/// The state of the login and registration forms.
pub struct Login {
    pub login_field: String,
    pub password_field: String,
    pub repeat_password_field: Option<String>,
    pub registration_error: Option<RegistrationError>,
    pub login_error: Option<LoginError>,
    pub is_registered: bool,
}

impl Login {
    /// A fresh registration form: empty fields, a present (empty) repeated
    /// password, no verdicts, not yet registered.
    pub open spec fn spec_fresh_registration_page(self) -> bool {
        &&& self.login_field@ == Seq::<char>::empty()
        &&& self.password_field@ == Seq::<char>::empty()
        &&& self.repeat_password_field matches Some(s) && s@ == Seq::<char>::empty()
        &&& self.registration_error is None
        &&& self.login_error is None
        &&& !self.is_registered
    }

    /// A fresh login form: empty fields, no repeated password, no verdicts,
    /// already registered.
    pub open spec fn spec_fresh_login_page(self) -> bool {
        &&& self.login_field@ == Seq::<char>::empty()
        &&& self.password_field@ == Seq::<char>::empty()
        &&& self.repeat_password_field is None
        &&& self.registration_error is None
        &&& self.login_error is None
        &&& self.is_registered
    }

    pub fn new_registration_page() -> (r: Self)
        ensures
            r.spec_fresh_registration_page(),
    {
        Self {
            login_field: String::new(),
            password_field: String::new(),
            repeat_password_field: Some(String::new()),
            registration_error: None,
            login_error: None,
            is_registered: false,
        }
    }

    pub fn new_login_page() -> (r: Self)
        ensures
            r.spec_fresh_login_page(),
    {
        Self {
            login_field: String::new(),
            password_field: String::new(),
            repeat_password_field: None,
            registration_error: None,
            login_error: None,
            is_registered: true,
        }
    }

    pub fn get_login(&self) -> (r: &str)
        ensures
            r@ == self.login_field@,
    {
        self.login_field.as_str()
    }

    pub fn get_password(&self) -> (r: &str)
        ensures
            r@ == self.password_field@,
    {
        self.password_field.as_str()
    }

    pub fn change_password(&mut self, password: String)
        ensures
            *final(self) == (Login { password_field: password, ..*old(self) }),
    {
        self.password_field = password
    }

    pub fn change_login(&mut self, login: String)
        ensures
            *final(self) == (Login { login_field: login, ..*old(self) }),
    {
        self.login_field = login
    }

    pub fn change_repeated_password(&mut self, repeated_password: String)
        ensures
            *final(self) == (Login { repeat_password_field: Some(repeated_password), ..*old(self) }),
    {
        self.repeat_password_field = Some(repeated_password)
    }

    /// The repeated password entry; only the registration form has one.
    pub fn get_repeated_password(&self) -> (r: &str)
        requires
            self.repeat_password_field is Some,
        ensures
            r@ == self.repeat_password_field->0@,
    {
        self.repeat_password_field.as_ref().unwrap().as_str()
    }

    pub fn get_registration_error(&self) -> (r: Option<&RegistrationError>)
        ensures
            match r {
                None => self.registration_error is None,
                Some(e) => self.registration_error matches Some(e2) && e2 == *e,
            },
    {
        self.registration_error.as_ref()
    }

    pub fn set_registration_error(&mut self, error: Option<RegistrationError>)
        ensures
            *final(self) == (Login { registration_error: error, ..*old(self) }),
    {
        self.registration_error = error
    }

    pub fn set_login_error(&mut self, error: Option<LoginError>)
        ensures
            *final(self) == (Login { login_error: error, ..*old(self) }),
    {
        self.login_error = error
    }

    pub fn get_login_error(&self) -> (r: Option<&LoginError>)
        ensures
            match r {
                None => self.login_error is None,
                Some(e) => self.login_error matches Some(e2) && e2 == *e,
            },
    {
        self.login_error.as_ref()
    }

    pub fn registered(&mut self)
        ensures
            *final(self) == (Login { is_registered: true, ..*old(self) }),
    {
        self.is_registered = true
    }

    pub fn is_registered(&self) -> (r: bool)
        ensures
            r == self.is_registered,
    {
        if self.is_registered {
            true
        } else {
            false
        }
    }

    /// The repeated password as the identity check sees it.
    pub open spec fn spec_repeat_view(self) -> Option<Seq<char>> {
        match self.repeat_password_field {
            None => None,
            Some(s) => Some(s@),
        }
    }

    /// The whole effect of `check_password`: the form it leaves behind and
    /// the verdict it returns.
    pub open spec fn spec_check_password(self) -> (Login, bool) {
        if !spec_password_relevant(self.password_field@) {
            (
                (Login {
                    registration_error: Some(RegistrationError::IrrelevantPassword),
                    ..self
                }),
                false,
            )
        } else if !spec_passwords_identical(self.password_field@, self.spec_repeat_view()) {
            (
                (Login { registration_error: Some(RegistrationError::DifferentPasswords), ..self }),
                false,
            )
        } else {
            ((Login { registration_error: None, ..self }), true)
        }
    }

    /// Check the form's passwords and store the outcome: an irrelevant
    /// password wins over mismatched entries, and a valid pair clears the
    /// error.
    pub fn check_password(&mut self) -> (r: bool)
        ensures
            (*final(self), r) == old(self).spec_check_password(),
            r == (spec_password_relevant(old(self).password_field@)
                && spec_passwords_identical(old(self).password_field@, old(self).spec_repeat_view())),
    {
        if is_password_relevant(self.password_field.as_str()) == false {
            self.registration_error = Some(RegistrationError::IrrelevantPassword);
            false
        } else if is_passwords_identical(
            self.password_field.as_str(),
            self.repeat_password_field.as_ref(),
        ) == false {
            self.registration_error = Some(RegistrationError::DifferentPasswords);
            false
        } else {
            self.registration_error = None;
            true
        }
    }
}

} // verus!
