//! The one database session of the process: the settings it is opened with,
//! as read from the process configuration at startup, and the report on how
//! its driver ended.

use vstd::prelude::*;
use vstd::string::*;

verus! {

/// A key of the process configuration. All five are required.
#[derive(Debug, Clone, Copy, PartialEq, Eq)]
pub enum SettingKey {
    Host,
    Port,
    User,
    Password,
    Name,
}

impl SettingKey {
    /// The name of the environment variable that holds the setting.
    pub open spec fn variable_text(self) -> Seq<char> {
        match self {
            SettingKey::Host => "DB_HOST"@,
            SettingKey::Port => "DB_PORT"@,
            SettingKey::User => "DB_USER"@,
            SettingKey::Password => "DB_PASSWORD"@,
            SettingKey::Name => "DB_NAME"@,
        }
    }

    /// The diagnostic for a setting that the configuration lacks: the name
    /// of its variable, then ` not set`.
    pub open spec fn missing_text(self) -> Seq<char> {
        self.variable_text() + " not set"@
    }

    /// The name of the environment variable that holds the setting.
    pub fn variable(&self) -> (name: &'static str)
        ensures
            name@ == self.variable_text(),
    {
        match self {
            SettingKey::Host => "DB_HOST",
            SettingKey::Port => "DB_PORT",
            SettingKey::User => "DB_USER",
            SettingKey::Password => "DB_PASSWORD",
            SettingKey::Name => "DB_NAME",
        }
    }

    /// The diagnostic with which startup fails when the setting is missing.
    pub fn missing_message(&self) -> (message: String)
        ensures
            message@ == self.missing_text(),
    {
        let mut message = String::from_str(self.variable());
        message.append(" not set");
        message
    }
}

/// The five settings of the database session.
#[derive(Debug, Clone, PartialEq, Eq)]
pub struct ConnectionSettings {
    pub host: String,
    pub port: String,
    pub user: String,
    pub password: String,
    pub name: String,
}

/// What [`ConnectionSettings`] hold, as mathematical values.
pub ghost struct ConnectionSettingsModel {
    pub host: Seq<char>,
    pub port: Seq<char>,
    pub user: Seq<char>,
    pub password: Seq<char>,
    pub name: Seq<char>,
}

impl View for ConnectionSettings {
    type V = ConnectionSettingsModel;

    open spec fn view(&self) -> ConnectionSettingsModel {
        ConnectionSettingsModel {
            host: self.host@,
            port: self.port@,
            user: self.user@,
            password: self.password@,
            name: self.name@,
        }
    }
}

/// The first key, in the order host, port, user, password, name, whose value
/// is missing; `None` where all five are there.
pub open spec fn first_missing(
    host: Option<String>,
    port: Option<String>,
    user: Option<String>,
    password: Option<String>,
    name: Option<String>,
) -> Option<SettingKey> {
    if host is None {
        Some(SettingKey::Host)
    } else if port is None {
        Some(SettingKey::Port)
    } else if user is None {
        Some(SettingKey::User)
    } else if password is None {
        Some(SettingKey::Password)
    } else if name is None {
        Some(SettingKey::Name)
    } else {
        None
    }
}

impl ConnectionSettingsModel {
    /// The connection string: the five settings as `key=value` pairs, one
    /// space between pairs, in the order host, port, user, password, dbname.
    pub open spec fn connection_text(self) -> Seq<char> {
        "host="@ + self.host + " port="@ + self.port + " user="@ + self.user + " password="@
            + self.password + " dbname="@ + self.name
    }
}

impl ConnectionSettings {
    /// Gathers the settings from what the configuration holds under each of
    /// the five keys. They are complete exactly when none is missing; else
    /// the first missing key is reported.
    pub fn from_lookups(
        host: Option<String>,
        port: Option<String>,
        user: Option<String>,
        password: Option<String>,
        name: Option<String>,
    ) -> (result: Result<ConnectionSettings, SettingKey>)
        ensures
            match result {
                Ok(settings) => {
                    &&& host == Some(settings.host)
                    &&& port == Some(settings.port)
                    &&& user == Some(settings.user)
                    &&& password == Some(settings.password)
                    &&& name == Some(settings.name)
                },
                Err(key) => first_missing(host, port, user, password, name) == Some(key),
            },
    {
        let host = match host {
            Some(value) => value,
            None => {
                return Err(SettingKey::Host);
            },
        };
        let port = match port {
            Some(value) => value,
            None => {
                return Err(SettingKey::Port);
            },
        };
        let user = match user {
            Some(value) => value,
            None => {
                return Err(SettingKey::User);
            },
        };
        let password = match password {
            Some(value) => value,
            None => {
                return Err(SettingKey::Password);
            },
        };
        let name = match name {
            Some(value) => value,
            None => {
                return Err(SettingKey::Name);
            },
        };
        Ok(ConnectionSettings { host, port, user, password, name })
    }

    /// Composes the connection string with which the session is opened.
    pub fn connection_string(&self) -> (text: String)
        ensures
            text@ == self@.connection_text(),
    {
        let mut text = String::from_str("host=");
        text.append(self.host.as_str());
        text.append(" port=");
        text.append(self.port.as_str());
        text.append(" user=");
        text.append(self.user.as_str());
        text.append(" password=");
        text.append(self.password.as_str());
        text.append(" dbname=");
        text.append(self.name.as_str());
        text
    }
}

/// The line that goes to standard error for a driver that ended with the
/// failure `failure`.
pub open spec fn driver_failure_text(failure: Seq<char>) -> Seq<char> {
    "connection error: "@ + failure
}

/// What is written to standard error when the driver of the session has
/// ended: a line with the failure for a driver that failed, nothing for one
/// that shut down cleanly.
pub fn driver_report(ending: Result<(), String>) -> (report: Option<String>)
    ensures
        match ending {
            Ok(_) => report is None,
            Err(failure) => report matches Some(line) && line@ == driver_failure_text(failure@),
        },
{
    match ending {
        Ok(_) => None,
        Err(failure) => {
            let mut line = String::from_str("connection error: ");
            line.append(failure.as_str());
            Some(line)
        },
    }
}

} // verus!
