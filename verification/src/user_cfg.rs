//! The identity under which user-scoped configuration is carried out.

use crate::env::get_env_var;
use crate::error::{verdict_view, SetupError, SetupErrorView};
use crate::text::optional_text;
use vstd::prelude::*;

verus! {

/// Name of the variable that holds the user's name.
pub const USER_VARIABLE: &'static str = "USER";

/// Name of the variable that holds the user's home directory.
pub const HOME_VARIABLE: &'static str = "HOME";

/// Name of the variable that holds the user's name, as a text.
pub open spec fn user_variable() -> Seq<char> {
    USER_VARIABLE@
}

/// Name of the variable that holds the user's home directory, as a text.
pub open spec fn home_variable() -> Seq<char> {
    HOME_VARIABLE@
}

/// The user's name and home directory.
///
/// A fresh value is empty. Each setter accepts only a non-empty value, so a
/// field that has been set once is never empty afterwards.
#[derive(Debug, Clone, PartialEq, Eq)]
pub struct UserCfg {
    name: String,
    home_dir: String,
}

/// Mathematical value of a [`UserCfg`].
pub struct UserCfgView {
    pub name: Seq<char>,
    pub home_dir: Seq<char>,
}

impl UserCfgView {
    /// Both fields have been set.
    pub open spec fn resolved(self) -> bool {
        self.name.len() > 0 && self.home_dir.len() > 0
    }
}

impl View for UserCfg {
    type V = UserCfgView;

    closed spec fn view(&self) -> UserCfgView {
        UserCfgView { name: self.name@, home_dir: self.home_dir@ }
    }
}

/// What setting the user's name to `name` gives.
pub open spec fn name_verdict(name: Seq<char>) -> Result<(), SetupErrorView> {
    if name.len() == 0 {
        Err(SetupErrorView::MissingVariable { name: user_variable() })
    } else {
        Ok(())
    }
}

/// What setting the home directory to `home` gives, where `exists` tells
/// whether that path was found on disk.
pub open spec fn home_verdict(home: Seq<char>, exists: bool) -> Result<(), SetupErrorView> {
    if home.len() == 0 {
        Err(SetupErrorView::MissingVariable { name: home_variable() })
    } else if !exists {
        Err(SetupErrorView::InvalidHome { path: home })
    } else {
        Ok(())
    }
}

/// What resolving the identity gives from the two lookups. `home_exists` is
/// `None` where the home directory is not checked against the disk.
pub open spec fn resolution(
    user: Option<Seq<char>>,
    home: Option<Seq<char>>,
    home_exists: Option<bool>,
) -> Result<UserCfgView, SetupErrorView> {
    if user is None || user->0.len() == 0 {
        Err(SetupErrorView::MissingVariable { name: user_variable() })
    } else if home is None || home->0.len() == 0 {
        Err(SetupErrorView::MissingVariable { name: home_variable() })
    } else if home_exists == Some(false) {
        Err(SetupErrorView::InvalidHome { path: home->0 })
    } else {
        Ok(UserCfgView { name: user->0, home_dir: home->0 })
    }
}

impl UserCfg {
    /// An identity with both fields empty.
    pub fn new() -> (cfg: Self)
        ensures
            cfg@ == (UserCfgView { name: Seq::<char>::empty(), home_dir: Seq::<char>::empty() }),
    {
        Self { name: String::new(), home_dir: String::new() }
    }

    /// Sets the user's name. An empty name is refused as a missing `USER`
    /// and leaves the value as it was.
    pub fn set_name(&mut self, name: &str) -> (result: Result<(), SetupError>)
        ensures
            verdict_view(result) == name_verdict(name@),
            result is Ok ==> final(self)@ == (UserCfgView { name: name@, ..old(self)@ }),
            result is Err ==> final(self)@ == old(self)@,
            old(self)@.resolved() ==> final(self)@.resolved(),
    {
        if name.is_empty() {
            Err(SetupError::MissingVariable { name: USER_VARIABLE.to_owned() })
        } else {
            self.name = name.to_owned();
            Ok(())
        }
    }

    /// Sets the home directory, given whether `home` exists on disk. An empty
    /// path is refused as a missing `HOME`, a path that does not exist as an
    /// invalid home; either leaves the value as it was.
    pub fn set_home(&mut self, home: &str, exists: bool) -> (result: Result<(), SetupError>)
        ensures
            verdict_view(result) == home_verdict(home@, exists),
            result is Ok ==> final(self)@ == (UserCfgView { home_dir: home@, ..old(self)@ }),
            result is Err ==> final(self)@ == old(self)@,
            old(self)@.resolved() ==> final(self)@.resolved(),
    {
        if home.is_empty() {
            Err(SetupError::MissingVariable { name: HOME_VARIABLE.to_owned() })
        } else if !exists {
            Err(SetupError::InvalidHome { path: home.to_owned() })
        } else {
            self.home_dir = home.to_owned();
            Ok(())
        }
    }

    /// Resolves the identity from the lookups of `USER` and `HOME`.
    /// `home_exists` tells whether the home directory was found on disk, and
    /// is `None` where that is not checked. An absent or empty variable is
    /// reported by name, `USER` before `HOME`.
    pub fn resolve(
        user: Option<String>,
        home: Option<String>,
        home_exists: Option<bool>,
    ) -> (result: Result<UserCfg, SetupError>)
        ensures
            match resolution(optional_text(user), optional_text(home), home_exists) {
                Ok(identity) => result is Ok && result->Ok_0@ == identity,
                Err(e) => result is Err && result->Err_0@ == e,
            },
            result is Ok ==> result->Ok_0@.resolved(),
    {
        let name = match get_env_var(USER_VARIABLE, user) {
            Ok(name) => name,
            Err(e) => {
                return Err(e);
            },
        };
        let home_dir = match get_env_var(HOME_VARIABLE, home) {
            Ok(home_dir) => home_dir,
            Err(e) => {
                return Err(e);
            },
        };
        let found = match home_exists {
            Some(found) => found,
            None => true,
        };
        let mut cfg = UserCfg::new();
        match cfg.set_name(name.as_str()) {
            Err(e) => {
                return Err(e);
            },
            Ok(_) => {},
        }
        match cfg.set_home(home_dir.as_str(), found) {
            Err(e) => Err(e),
            Ok(_) => Ok(cfg),
        }
    }

    /// The user's name.
    pub fn get_name(&self) -> (name: &str)
        ensures
            name@ == self@.name,
    {
        self.name.as_str()
    }

    /// The user's home directory.
    pub fn get_home(&self) -> (home: &str)
        ensures
            home@ == self@.home_dir,
    {
        self.home_dir.as_str()
    }
}

} // verus!
