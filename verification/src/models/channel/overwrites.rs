//! Permission overwrites of a channel.
use crate::models::user::User;
use crate::permissions::Permissions;
use crate::snowflake::Snowflake;
use vstd::prelude::*;

verus! {

/// The permission overwrites of a channel.
#[derive(Debug, Clone, PartialEq)]
pub struct PermissionOverwrites(pub Vec<PermissionOverwrite>);

/// What one user is allowed and denied in a channel, over what the server
/// grants.
#[derive(Debug, Clone, PartialEq)]
pub struct PermissionOverwrite {
    pub allow: Permissions,
    pub deny: Permissions,
    pub id: PermissionOverwriteType,
}

/// Whom a permission overwrite is for.
#[derive(Debug, Clone, PartialEq)]
pub enum PermissionOverwriteType {
    User(Snowflake<User>),
}

} // verus!
