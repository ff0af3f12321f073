//! What the caller asks for.

use vstd::prelude::*;

verus! {

/// The identity that is asked for. Every part may be left out; what is left
/// out is looked up or filled in during resolution.
#[derive(Debug, PartialEq, Eq)]
pub struct Config {
    /// User name.
    pub user: Option<String>,
    /// Group name.
    pub group: Option<String>,
    /// Numeric user id.
    pub uid: Option<u32>,
    /// Numeric group id.
    pub gid: Option<u32>,
    /// Home directory.
    pub home: Option<String>,
    /// Numeric ids of further groups, each of which is created and joined.
    pub extra_gids: Vec<u32>,
    /// Names of further groups that the user joins.
    pub extra_groups: Vec<String>,
}

/// A `Config` over plain values.
pub struct ConfigView {
    pub user: Option<Seq<char>>,
    pub group: Option<Seq<char>>,
    pub uid: Option<u32>,
    pub gid: Option<u32>,
    pub home: Option<Seq<char>>,
    pub extra_gids: Seq<u32>,
    pub extra_groups: Seq<Seq<char>>,
}

impl View for Config {
    type V = ConfigView;

    open spec fn view(&self) -> ConfigView {
        ConfigView {
            user: self.user.deep_view(),
            group: self.group.deep_view(),
            uid: self.uid,
            gid: self.gid,
            home: self.home.deep_view(),
            extra_gids: self.extra_gids@,
            extra_groups: self.extra_groups.deep_view(),
        }
    }
}

} // verus!
