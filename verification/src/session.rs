//! The per-request session: an authorization level and the selected scope.

use vstd::prelude::*;

verus! {

/// How far the credentials of a session reach.
#[derive(Clone, Copy, Debug, PartialEq, Eq, Structural)]
pub enum AuthLevel {
    /// No credentials, or credentials below database scope.
    Unprivileged,
    /// Full rights on one database of one namespace.
    Database,
    /// Full rights on the whole system.
    SystemAdmin,
}

impl AuthLevel {
    /// The position of the level in the order of privileges.
    pub open spec fn rank(self) -> nat {
        match self {
            AuthLevel::Unprivileged => 0,
            AuthLevel::Database => 1,
            AuthLevel::SystemAdmin => 2,
        }
    }

    /// Whether the level is database-scoped or higher.
    pub open spec fn covers_database(self) -> bool {
        self.rank() >= AuthLevel::Database.rank()
    }

    /// Tells whether the level is database-scoped or higher.
    pub fn is_db(&self) -> (b: bool)
        ensures
            b == self.covers_database(),
    {
        match self {
            AuthLevel::Unprivileged => false,
            AuthLevel::Database => true,
            AuthLevel::SystemAdmin => true,
        }
    }
}

/// What a request carries once its credentials have been resolved.
#[derive(Debug, PartialEq, Eq)]
pub struct Session {
    /// The authorization level.
    pub level: AuthLevel,
    /// The selected namespace.
    pub namespace: Option<String>,
    /// The selected database.
    pub database: Option<String>,
}

/// A session as a mathematical value.
pub struct SessionView {
    pub level: AuthLevel,
    pub namespace: Option<Seq<char>>,
    pub database: Option<Seq<char>>,
}

impl SessionView {
    /// A session of database scope or higher names its namespace and database.
    pub open spec fn well_formed(self) -> bool {
        self.level.covers_database() ==> self.namespace is Some && self.database is Some
    }

    /// The namespace and database that the session may export, if any.
    pub open spec fn export_scope(self) -> Option<(Seq<char>, Seq<char>)> {
        if self.level.covers_database() && self.namespace is Some && self.database is Some {
            Some((self.namespace->0, self.database->0))
        } else {
            None
        }
    }
}

/// The view of an optional string.
pub open spec fn opt_view(s: Option<String>) -> Option<Seq<char>> {
    match s {
        Some(s) => Some(s@),
        None => None,
    }
}

impl View for Session {
    type V = SessionView;

    open spec fn view(&self) -> SessionView {
        SessionView {
            level: self.level,
            namespace: opt_view(self.namespace),
            database: opt_view(self.database),
        }
    }
}

impl Session {
    /// Builds a session, provided that it names the namespace and database
    /// that its level calls for.
    pub fn new(level: AuthLevel, namespace: Option<String>, database: Option<String>) -> (r: Option<
        Session,
    >)
        ensures
            match r {
                Some(s) => s.level == level && s.namespace == namespace && s.database == database
                    && s@.well_formed(),
                None => level.covers_database() && (namespace is None || database is None),
            },
    {
        if level.is_db() && (namespace.is_none() || database.is_none()) {
            None
        } else {
            Some(Session { level, namespace, database })
        }
    }
}

} // verus!
