//! Presences: what a user is seen doing.
use vstd::prelude::*;

verus! {

/// A presence as it is told to the Discord API.
#[derive(Debug)]
pub struct Presence {
    pub since: u64,
    pub status: Status,
    pub activities: Vec<Activity>,
}

/// Whether and how a user is there.
#[derive(Debug)]
pub enum Status {
    /// `online`
    Online,
    /// `dnd`
    DoNotDisturb,
    /// `idle`
    Idle,
    /// `offline`
    Offline,
}

#[allow(non_snake_case)]
impl Status {
    /// Short for [`Status::DoNotDisturb`].
    pub fn DND() -> (r: Status)
        ensures
            r is DoNotDisturb,
    {
        Status::DoNotDisturb
    }

    /// To Discord an invisible user is an offline one: this is
    /// [`Status::Offline`].
    pub fn Invlisible() -> (r: Status)
        ensures
            r is Offline,
    {
        Status::Offline
    }
}

/// What a user is doing.
#[derive(Debug)]
pub struct Activity {
    pub name: String,
    pub ty: ActivityType,
    /// The url of the stream.
    pub url: Option<String>,
    pub details: Option<String>,
    pub created_at: u64,
    pub timestamps: ActivityTimestamps,
    /// The identifier of the party, and its current and its largest size.
    pub party: (Option<String>, Option<(u64, u64)>),
    pub assets: ActivityAssets,
    pub buttons: Vec<ActivityButton>,
    pub instance: bool,
}

/// When an activity began and when it ends.
#[derive(Debug, Default)]
pub struct ActivityTimestamps {
    pub start: Option<u64>,
    pub end: Option<u64>,
}

/// The images of an activity and the texts shown over them.
#[derive(Debug, Default)]
pub struct ActivityAssets {
    pub large_image: Option<String>,
    pub large_text: Option<String>,
    pub small_image: Option<String>,
    pub small_text: Option<String>,
}

/// A button shown with an activity.
#[derive(Debug)]
pub struct ActivityButton {
    pub lable: String,
    pub url: Option<String>,
}

/// The kind of an activity. Discord numbers them from 0 to 5 in this order.
#[derive(Debug)]
pub enum ActivityType {
    /// Playing a game.
    Playing,
    /// Streaming a game.
    Streaming,
    Listening,
    Watching,
    Custom,
    Competing,
}

} // verus!
