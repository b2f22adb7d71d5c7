//! The database settings a program is started with.

use vstd::prelude::*;
use vstd::string::*;

verus! {

/// A setting that was not given.
#[derive(PartialEq, Eq, Structural, Clone, Copy, Debug)]
pub enum ConfigError {
    /// `DB2_DSN` is not set.
    MissingDsn,
    /// `DB2_USER` is not set.
    MissingUser,
    /// `DB2_PWD` is not set.
    MissingPassword,
}

/// The name of the environment variable a missing setting comes from.
pub open spec fn variable_of(e: ConfigError) -> Seq<char> {
    match e {
        ConfigError::MissingDsn => "DB2_DSN"@,
        ConfigError::MissingUser => "DB2_USER"@,
        ConfigError::MissingPassword => "DB2_PWD"@,
    }
}

impl ConfigError {
    /// The environment variable that is not set.
    pub fn variable(&self) -> (r: &'static str)
        ensures
            r@ == variable_of(*self),
    {
        match self {
            ConfigError::MissingDsn => "DB2_DSN",
            ConfigError::MissingUser => "DB2_USER",
            ConfigError::MissingPassword => "DB2_PWD",
        }
    }

    /// The message that reports the missing variable.
    pub fn message(&self) -> (r: String)
        ensures
            r@ == variable_of(*self)
                + " environment variable not set. Please set it or create a .env file."@,
    {
        let mut r = self.variable().to_owned();
        r.append(" environment variable not set. Please set it or create a .env file.");
        r
    }
}

/// The data source name, user and password to connect with.
#[derive(Clone)]
pub struct DbConfig {
    dsn: String,
    user: String,
    password: String,
}

/// The text that stands for a password wherever a configuration is shown.
pub open spec fn password_mask() -> Seq<char> {
    seq!['*', '*', '*']
}

impl DbConfig {
    /// The data source name.
    pub closed spec fn dsn_spec(self) -> Seq<char> {
        self.dsn@
    }

    /// The user.
    pub closed spec fn user_spec(self) -> Seq<char> {
        self.user@
    }

    /// The password.
    pub closed spec fn password_spec(self) -> Seq<char> {
        self.password@
    }

    /// The settings from the values of `DB2_DSN`, `DB2_USER` and `DB2_PWD`;
    /// the first of them that is missing, in that order, is reported.
    pub fn from_values(dsn: Option<String>, user: Option<String>, password: Option<String>) -> (r:
        Result<DbConfig, ConfigError>)
        ensures
            dsn is None ==> r == Err::<DbConfig, ConfigError>(ConfigError::MissingDsn),
            dsn is Some && user is None ==> r == Err::<DbConfig, ConfigError>(
                ConfigError::MissingUser,
            ),
            dsn is Some && user is Some && password is None ==> r == Err::<DbConfig, ConfigError>(
                ConfigError::MissingPassword,
            ),
            dsn is Some && user is Some && password is Some ==> (r matches Ok(c)
                && c.dsn_spec() == dsn->0@ && c.user_spec() == user->0@ && c.password_spec()
                == password->0@),
    {
        let dsn = match dsn {
            Some(v) => v,
            None => return Err(ConfigError::MissingDsn),
        };
        let user = match user {
            Some(v) => v,
            None => return Err(ConfigError::MissingUser),
        };
        let password = match password {
            Some(v) => v,
            None => return Err(ConfigError::MissingPassword),
        };
        Ok(DbConfig { dsn, user, password })
    }

    /// The data source name.
    pub fn dsn(&self) -> (r: &str)
        ensures
            r@ == self.dsn_spec(),
    {
        self.dsn.as_str()
    }

    /// The user.
    pub fn user(&self) -> (r: &str)
        ensures
            r@ == self.user_spec(),
    {
        self.user.as_str()
    }

    /// The password.
    pub fn password(&self) -> (r: &str)
        ensures
            r@ == self.password_spec(),
    {
        self.password.as_str()
    }

    /// The settings as they may be shown: the password replaced by `***`.
    pub fn redacted(&self) -> (r: DbConfig)
        ensures
            r.dsn_spec() == self.dsn_spec(),
            r.user_spec() == self.user_spec(),
            r.password_spec() == password_mask(),
    {
        let mut password = String::new();
        password.push('*');
        password.push('*');
        password.push('*');
        assert(password@ =~= password_mask());
        DbConfig { dsn: self.dsn.clone(), user: self.user.clone(), password }
    }
}

} // verus!
