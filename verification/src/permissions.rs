//! Discord permissions, for channels and for whole servers.
use crate::bits::{
    lemma_associative_u64, lemma_commutative_u64, lemma_de_morgan_u64, lemma_includes_bits,
    lemma_shares_bit,
};
use crate::error::Error;
use crate::models::traits::BitFlag;
use crate::utilities::serde::{
    decoded_u64, deserialize_u64, encoded_u64, serialize_u64, WireValue,
};
use core::cmp::Ordering;
use core::ops::{BitAnd, BitAndAssign, BitOr, BitOrAssign, BitXor, BitXorAssign, Not};
use vstd::prelude::*;
use vstd::std_specs::ops::{BitAndSpec, BitOrSpec, BitXorSpec, NotSpec};

verus! {

/// The integer that stores a set of permissions.
///
/// Discord sends permissions as an integer of variable length, serialized into
/// a string. The largest permission today is bit 40, so 64 bits hold them all.
/// Do not rely on this being a `u64`.
pub type PermissionInteger = u64;

/// A wrapper around Discord's permission system: a set of permissions as a
/// mask, one bit per permission. Every bit pattern is a valid set.
#[derive(Debug, Clone, Copy, PartialEq, Eq, Structural, Ord)]
pub struct Permissions(pub PermissionInteger);

#[allow(non_snake_case)]
impl Permissions {
    /// Gives an empty set of permissions.
    pub fn EMPTY() -> (r: Self)
        ensures
            r.0 == 0,
    {
        Self::new(0)
    }

    /// Gives a set of all permissions available.
    pub fn ALL() -> (r: Self)
        ensures
            r.0 == u64::MAX,
    {
        Self::new(PermissionInteger::MAX)
    }

    /// Allows creation of instant invites. This permission is toggleable at a
    /// server level but can explicitly be set in text channels, voice channels,
    /// stages, for specific usages in that channel.
    pub fn CREATE_INSTANT_INVITE() -> (r: Self)
        ensures
            r.0 == 1u64 << 0,
    {
        Self(1 << 0)
    }

    /// Allows creation of instant invites. This is an alias to
    /// [`Permissions::CREATE_INSTANT_INVITE`].
    pub fn CREATE_INVITE() -> (r: Self)
        ensures
            r.0 == 1u64 << 0,
    {
        Self::CREATE_INSTANT_INVITE()
    }

    /// Allows creation of instant invites. This is an alias to
    /// [`Permissions::CREATE_INSTANT_INVITE`].
    pub fn INVITE() -> (r: Self)
        ensures
            r.0 == 1u64 << 0,
    {
        Self::CREATE_INSTANT_INVITE()
    }

    /// Allows kicking members. This permission works at a server level.
    pub fn KICK_MEMBERS() -> (r: Self)
        ensures
            r.0 == 1u64 << 1,
    {
        Self(1 << 1)
    }

    /// Allows kicking members. This is an alias to [`Permissions::KICK_MEMBERS`].
    pub fn KICK() -> (r: Self)
        ensures
            r.0 == 1u64 << 1,
    {
        Self::KICK_MEMBERS()
    }

    /// Allows banning members. This permission works at a server level.
    pub fn BAN_MEMBERS() -> (r: Self)
        ensures
            r.0 == 1u64 << 2,
    {
        Self(1 << 2)
    }

    /// Allows banning members. This is an alias to [`Permissions::BAN_MEMBERS`].
    pub fn BAN() -> (r: Self)
        ensures
            r.0 == 1u64 << 2,
    {
        Self::BAN_MEMBERS()
    }

    /// Allows all permissions and bypasses channel permission overwrites. This
    /// permission works at a server level.
    pub fn ADMINISTRATOR() -> (r: Self)
        ensures
            r.0 == 1u64 << 3,
    {
        Self(1 << 3)
    }

    /// Allows all permissions and bypasses channel permission overwrites. This is
    /// an alias to [`Permissions::ADMINISTRATOR`].
    pub fn ADMIN() -> (r: Self)
        ensures
            r.0 == 1u64 << 3,
    {
        Self::ADMINISTRATOR()
    }

    /// Allows management and editing of channels. This permission is toggleable
    /// at a server level but can explicitly be set in text channels, voice
    /// channels, stages, for specific usages in that channel.
    pub fn MANAGE_CHANNELS() -> (r: Self)
        ensures
            r.0 == 1u64 << 4,
    {
        Self(1 << 4)
    }

    /// Allows management and editing of channels. This is an alias to
    /// [`Permissions::MANAGE_CHANNELS`].
    pub fn EDIT_CHANNELS() -> (r: Self)
        ensures
            r.0 == 1u64 << 4,
    {
        Self::MANAGE_CHANNELS()
    }

    /// Allows management and editing of the guild. This permission works at a
    /// server level.
    pub fn MANAGE_GUILD() -> (r: Self)
        ensures
            r.0 == 1u64 << 5,
    {
        Self(1 << 5)
    }

    /// Allows management and editing of the guild. This is an alias to
    /// [`Permissions::MANAGE_GUILD`].
    pub fn MANAGE_SERVER() -> (r: Self)
        ensures
            r.0 == 1u64 << 5,
    {
        Self::MANAGE_GUILD()
    }

    /// Allows for the addition of reactions to messages. This permission is
    /// toggleable at a server level but can explicitly be set in text channels,
    /// voice channels, for specific usages in that channel.
    pub fn ADD_REACTIONS() -> (r: Self)
        ensures
            r.0 == 1u64 << 6,
    {
        Self(1 << 6)
    }

    /// Allows for the addition of reactions to messages. This is an alias to
    /// [`Permissions::ADD_REACTIONS`].
    pub fn REACT() -> (r: Self)
        ensures
            r.0 == 1u64 << 6,
    {
        Self::ADD_REACTIONS()
    }

    /// Allows for viewing of audit logs. This permission works at a server level.
    pub fn VIEW_AUDIT_LOG() -> (r: Self)
        ensures
            r.0 == 1u64 << 7,
    {
        Self(1 << 7)
    }

    /// Allows for viewing of audit logs. This is an alias to
    /// [`Permissions::VIEW_AUDIT_LOG`].
    pub fn AUDIT_LOG() -> (r: Self)
        ensures
            r.0 == 1u64 << 7,
    {
        Self::VIEW_AUDIT_LOG()
    }

    /// Allows for using priority speaker in a voice channel. This permission
    /// works at a server level.
    pub fn PRIORITY_SPEAKER() -> (r: Self)
        ensures
            r.0 == 1u64 << 8,
    {
        Self(1 << 8)
    }

    /// Allows the user to go live, and use video. This permission is toggleable
    /// at a server level but can explicitly be set in voice channels, for
    /// specific usages in that channel.
    pub fn STREAM() -> (r: Self)
        ensures
            r.0 == 1u64 << 9,
    {
        Self(1 << 9)
    }

    /// Allows the user to go live, and use video. This is an alias to
    /// [`Permissions::STREAM`].
    pub fn VIDEO() -> (r: Self)
        ensures
            r.0 == 1u64 << 9,
    {
        Self::STREAM()
    }

    /// Allows guild members to view a channel, which includes reading messages in
    /// text channels and joining voice channels. This permission is toggleable at
    /// a server level but can explicitly be set in text channels, voice channels,
    /// stages, for specific usages in that channel.
    pub fn VIEW_CHANNEL() -> (r: Self)
        ensures
            r.0 == 1u64 << 10,
    {
        Self(1 << 10)
    }

    /// Allows guild members to view a channel, which includes reading messages in
    /// text channels and joining voice channels. This is an alias to
    /// [`Permissions::VIEW_CHANNEL`].
    pub fn READ_MESSAGES() -> (r: Self)
        ensures
            r.0 == 1u64 << 10,
    {
        Self::VIEW_CHANNEL()
    }

    /// Allows for sending messages in a channel and creating threads in a forum
    /// (does not allow sending messages in threads). This permission is
    /// toggleable at a server level but can explicitly be set in voice channels,
    /// text channels, for specific usages in that channel.
    pub fn SEND_MESSAGES() -> (r: Self)
        ensures
            r.0 == 1u64 << 11,
    {
        Self(1 << 11)
    }

    /// Allows for sending of `/tts` messages. This permission is toggleable at a
    /// server level but can explicitly be set in text channels, voice channels,
    /// for specific usages in that channel.
    pub fn SEND_TTS_MESSAGES() -> (r: Self)
        ensures
            r.0 == 1u64 << 12,
    {
        Self(1 << 12)
    }

    /// Allows for deletion of other users messages and pinned messages. This
    /// permission is toggleable at a server level but can explicitly be set in
    /// text channels, voice channels, for specific usages in that channel.
    pub fn MANAGE_MESSAGES() -> (r: Self)
        ensures
            r.0 == 1u64 << 13,
    {
        Self(1 << 13)
    }

    /// Links sent by users with this permission will be auto-embedded. This
    /// permission is toggleable at a server level but can explicitly be set in
    /// text channels, voice channels, for specific usages in that channel.
    pub fn EMBED_LINKS() -> (r: Self)
        ensures
            r.0 == 1u64 << 14,
    {
        Self(1 << 14)
    }

    /// Links sent by users with this permission will be auto-embedded. This is an
    /// alias to [`Permissions::EMBED_LINKS`].
    pub fn SHOW_GIFS() -> (r: Self)
        ensures
            r.0 == 1u64 << 14,
    {
        Self::EMBED_LINKS()
    }

    /// Allows for uploading images and files. This permission is toggleable at a
    /// server level but can explicitly be set in text channels, voice channels,
    /// for specific usages in that channel.
    pub fn ATTACH_FILES() -> (r: Self)
        ensures
            r.0 == 1u64 << 15,
    {
        Self(1 << 15)
    }

    /// Allows for uploading images and files. This is an alias to
    /// [`Permissions::ATTACH_FILES`].
    pub fn FILES() -> (r: Self)
        ensures
            r.0 == 1u64 << 15,
    {
        Self::ATTACH_FILES()
    }

    /// Allows for reading of message history. This permission is toggleable at a
    /// server level but can explicitly be set in text channels, voice channels,
    /// for specific usages in that channel.
    pub fn READ_MESSAGE_HISTORY() -> (r: Self)
        ensures
            r.0 == 1u64 << 16,
    {
        Self(1 << 16)
    }

    /// Allows for reading of message history. This is an alias to
    /// [`Permissions::READ_MESSAGE_HISTORY`].
    pub fn MESSAGE_HISTORY() -> (r: Self)
        ensures
            r.0 == 1u64 << 16,
    {
        Self::READ_MESSAGE_HISTORY()
    }

    /// Allows for using the `@everyone` tag to notify all users in a channel, and
    /// the `@here` tag to notify all online users in a channel. Also enables
    /// mentioning any role. This permission is toggleable at a server level but
    /// can explicitly be set in text channels, voice channels, stages, for
    /// specific usages in that channel.
    pub fn MENTION_EVERYONE() -> (r: Self)
        ensures
            r.0 == 1u64 << 17,
    {
        Self(1 << 17)
    }

    /// Allows for using the `@everyone` tag to notify all users in a channel, and
    /// the `@here` tag to notify all online users in a channel. Also enables
    /// mentioning any role. This is an alias to
    /// [`Permissions::MENTION_EVERYONE`].
    pub fn MENTION_ALL_ROLES() -> (r: Self)
        ensures
            r.0 == 1u64 << 17,
    {
        Self::MENTION_EVERYONE()
    }

    /// Allows the usage of custom emojis from other servers. This permission is
    /// toggleable at a server level but can explicitly be set in text channels,
    /// voice channels, for specific usages in that channel.
    pub fn USE_EXTERNAL_EMOJIS() -> (r: Self)
        ensures
            r.0 == 1u64 << 18,
    {
        Self(1 << 18)
    }

    /// Allows the usage of custom emojis from other servers. This is an alias to
    /// [`Permissions::USE_EXTERNAL_EMOJIS`].
    pub fn EXTERNAL_EMOJIS() -> (r: Self)
        ensures
            r.0 == 1u64 << 18,
    {
        Self::USE_EXTERNAL_EMOJIS()
    }

    /// Allows for viewing guild insights. This permission works at a server
    /// level.
    pub fn VIEW_GUILD_INSIGHTS() -> (r: Self)
        ensures
            r.0 == 1u64 << 19,
    {
        Self(1 << 19)
    }

    /// Allows for viewing guild insights. This is an alias to
    /// [`Permissions::VIEW_GUILD_INSIGHTS`].
    pub fn VIEW_SERVER_INSIGHTS() -> (r: Self)
        ensures
            r.0 == 1u64 << 19,
    {
        Self::VIEW_GUILD_INSIGHTS()
    }

    /// Allows for viewing guild insights. This is an alias to
    /// [`Permissions::VIEW_GUILD_INSIGHTS`].
    pub fn GUILD_INSIGHTS() -> (r: Self)
        ensures
            r.0 == 1u64 << 19,
    {
        Self::VIEW_GUILD_INSIGHTS()
    }

    /// Allows for viewing guild insights. This is an alias to
    /// [`Permissions::VIEW_GUILD_INSIGHTS`].
    pub fn SERVER_INSIGHTS() -> (r: Self)
        ensures
            r.0 == 1u64 << 19,
    {
        Self::VIEW_GUILD_INSIGHTS()
    }

    /// Allows for joining of a voice channel. This permission is toggleable at a
    /// server level but can explicitly be set in voice channels, stages, for
    /// specific usages in that channel.
    pub fn CONNECT() -> (r: Self)
        ensures
            r.0 == 1u64 << 20,
    {
        Self(1 << 20)
    }

    /// Allows for joining of a voice channel. This is an alias to
    /// [`Permissions::CONNECT`].
    pub fn JOIN_VOICE() -> (r: Self)
        ensures
            r.0 == 1u64 << 20,
    {
        Self::CONNECT()
    }

    /// Allows for speaking in a voice channel. This permission is toggleable at a
    /// server level but can explicitly be set in voice channels, stages, for
    /// specific usages in that channel.
    pub fn SPEAK() -> (r: Self)
        ensures
            r.0 == 1u64 << 21,
    {
        Self(1 << 21)
    }

    /// Allows for muting members in a voice channel. This permission is
    /// toggleable at a server level but can explicitly be set in voice channels,
    /// stages, for specific usages in that channel.
    pub fn MUTE_MEMBERS() -> (r: Self)
        ensures
            r.0 == 1u64 << 22,
    {
        Self(1 << 22)
    }

    /// Allows for deafening of members in a voice channel. This permission is
    /// toggleable at a server level but can explicitly be set in voice channels,
    /// stages, for specific usages in that channel.
    pub fn DEAFEN_MEMBERS() -> (r: Self)
        ensures
            r.0 == 1u64 << 23,
    {
        Self(1 << 23)
    }

    /// Allows for moving of members between voice channels. This permission is
    /// toggleable at a server level but can explicitly be set in voice channels,
    /// stages, for specific usages in that channel.
    pub fn MOVE_MEMBERS() -> (r: Self)
        ensures
            r.0 == 1u64 << 24,
    {
        Self(1 << 24)
    }

    /// Allows for using voice-activity-detection in a voice channel, if this is
    /// off push-to-talk is required. This permission is toggleable at a server
    /// level but can explicitly be set in voice channels, for specific usages in
    /// that channel.
    pub fn USE_VAD() -> (r: Self)
        ensures
            r.0 == 1u64 << 25,
    {
        Self(1 << 25)
    }

    /// Allows for using voice-activity-detection in a voice channel, if this is
    /// off push-to-talk is required. This is an alias to
    /// [`Permissions::USE_VAD`].
    pub fn VOICE_ACTIVITY() -> (r: Self)
        ensures
            r.0 == 1u64 << 25,
    {
        Self::USE_VAD()
    }

    /// Allows for modification of own nickname. This permission works at a server
    /// level.
    pub fn CHANGE_NICKNAME() -> (r: Self)
        ensures
            r.0 == 1u64 << 26,
    {
        Self(1 << 26)
    }

    /// Allows for modification of other users nicknames. This permission works at
    /// a server level.
    pub fn MANAGE_NICKNAMES() -> (r: Self)
        ensures
            r.0 == 1u64 << 27,
    {
        Self(1 << 27)
    }

    /// Allows management and editing of roles. This permission is toggleable at a
    /// server level but can explicitly be set in text channels, voice channels,
    /// stages, for specific usages in that channel.
    pub fn MANAGE_ROLES() -> (r: Self)
        ensures
            r.0 == 1u64 << 28,
    {
        Self(1 << 28)
    }

    /// Allows management and editing of webhooks. This permission is toggleable
    /// at a server level but can explicitly be set in text channels, voice
    /// channels, for specific usages in that channel.
    pub fn MANAGE_WEBHOOKS() -> (r: Self)
        ensures
            r.0 == 1u64 << 29,
    {
        Self(1 << 29)
    }

    /// Allows management and editing of emojis and stickers. This permission
    /// works at a server level.
    pub fn MANAGE_EMOJIS_AND_STICKERS() -> (r: Self)
        ensures
            r.0 == 1u64 << 30,
    {
        Self(1 << 30)
    }

    /// Allows management and editing of emojis and stickers. This is an alias to
    /// [`Permissions::MANAGE_EMOJIS_AND_STICKERS`].
    pub fn MANAGE_EMOJIS() -> (r: Self)
        ensures
            r.0 == 1u64 << 30,
    {
        Self::MANAGE_EMOJIS_AND_STICKERS()
    }

    /// Allows members to use application commands, including slash commands and
    /// context menu commands. This permission is toggleable at a server level but
    /// can explicitly be set in text channels, voice channels, for specific
    /// usages in that channel.
    pub fn USE_APPLICATION_COMMANDS() -> (r: Self)
        ensures
            r.0 == 1u64 << 31,
    {
        Self(1 << 31)
    }

    /// Allows members to use application commands, including slash commands and
    /// context menu commands. This is an alias to
    /// [`Permissions::USE_APPLICATION_COMMANDS`].
    pub fn USE_COMMANDS() -> (r: Self)
        ensures
            r.0 == 1u64 << 31,
    {
        Self::USE_APPLICATION_COMMANDS()
    }

    /// Allows for requesting to speak in stage channels. (This permission is
    /// under active development and may be changed or removed). This permission
    /// is toggleable at a server level but can explicitly be set in stages, for
    /// specific usages in that channel.
    pub fn REQUEST_TO_SPEAK() -> (r: Self)
        ensures
            r.0 == 1u64 << 32,
    {
        Self(1 << 32)
    }

    /// Allows for creating, editing, and deleting scheduled events. This
    /// permission is toggleable at a server level but can explicitly be set in
    /// voice channels, stages, for specific usages in that channel.
    pub fn MANAGE_EVENTS() -> (r: Self)
        ensures
            r.0 == 1u64 << 33,
    {
        Self(1 << 33)
    }

    /// Allows for deleting and archiving threads, and viewing all private
    /// threads. This permission is toggleable at a server level but can
    /// explicitly be set in text channels, for specific usages in that channel.
    pub fn MANAGE_THREADS() -> (r: Self)
        ensures
            r.0 == 1u64 << 34,
    {
        Self(1 << 34)
    }

    /// Allows for creating public and announcement threads. This permission is
    /// toggleable at a server level but can explicitly be set in text channels,
    /// for specific usages in that channel.
    pub fn CREATE_PUBLIC_THREADS() -> (r: Self)
        ensures
            r.0 == 1u64 << 35,
    {
        Self(1 << 35)
    }

    /// Allows for creating private threads. This permission is toggleable at a
    /// server level but can explicitly be set in text channels, for specific
    /// usages in that channel.
    pub fn CREATE_PRIVATE_THREADS() -> (r: Self)
        ensures
            r.0 == 1u64 << 36,
    {
        Self(1 << 36)
    }

    /// Allows the usage of custom stickers from other servers. This permission is
    /// toggleable at a server level but can explicitly be set in text channels,
    /// voice channels, for specific usages in that channel.
    pub fn USE_EXTERNAL_STICKERS() -> (r: Self)
        ensures
            r.0 == 1u64 << 37,
    {
        Self(1 << 37)
    }

    /// Allows the usage of custom stickers from other servers. This is an alias
    /// to [`Permissions::USE_EXTERNAL_STICKERS`].
    pub fn EXTERNAL_STICKERS() -> (r: Self)
        ensures
            r.0 == 1u64 << 37,
    {
        Self::USE_EXTERNAL_STICKERS()
    }

    /// Allows for sending messages in threads. This permission is toggleable at a
    /// server level but can explicitly be set in text channels, for specific
    /// usages in that channel.
    pub fn SEND_MESSAGES_IN_THREADS() -> (r: Self)
        ensures
            r.0 == 1u64 << 38,
    {
        Self(1 << 38)
    }

    /// Allows for using Activities (applications with the `EMBEDDED` flag) in a
    /// voice channel. This permission is toggleable at a server level but can
    /// explicitly be set in voice channels, for specific usages in that channel.
    pub fn USE_EMBEDDED_ACTIVITIES() -> (r: Self)
        ensures
            r.0 == 1u64 << 39,
    {
        Self(1 << 39)
    }

    /// Allows for using Activities (applications with the `EMBEDDED` flag) in a
    /// voice channel. This is an alias to
    /// [`Permissions::USE_EMBEDDED_ACTIVITIES`].
    pub fn USE_ACTIVITIES() -> (r: Self)
        ensures
            r.0 == 1u64 << 39,
    {
        Self::USE_EMBEDDED_ACTIVITIES()
    }

    /// Allows for using Activities (applications with the `EMBEDDED` flag) in a
    /// voice channel. This is an alias to
    /// [`Permissions::USE_EMBEDDED_ACTIVITIES`].
    pub fn ACTIVITIES() -> (r: Self)
        ensures
            r.0 == 1u64 << 39,
    {
        Self::USE_EMBEDDED_ACTIVITIES()
    }

    /// Allows for timing out users to prevent them from sending or reacting to
    /// messages in chat and threads, and from speaking in voice and stage
    /// channels. This permission works at a server level.
    pub fn MODERATE_MEMBERS() -> (r: Self)
        ensures
            r.0 == 1u64 << 40,
    {
        Self(1 << 40)
    }

    /// Allows for timing out users to prevent them from sending or reacting to
    /// messages in chat and threads, and from speaking in voice and stage
    /// channels. This is an alias to [`Permissions::MODERATE_MEMBERS`].
    pub fn TIMEOUT_MEMBERS() -> (r: Self)
        ensures
            r.0 == 1u64 << 40,
    {
        Self::MODERATE_MEMBERS()
    }

    /// Constructs a new set of permissions given the bits passed to it.
    pub fn new(bits: PermissionInteger) -> (r: Self)
        ensures
            r.0 == bits,
    {
        Self(bits)
    }
}

impl Default for Permissions {
    /// Gives an empty set of permissions.
    fn default() -> (r: Self)
        ensures
            r.0 == 0,
    {
        Self(0)
    }
}

/// `|` is the union of two sets of the same kind, bit for bit.
impl BitOr for Permissions {
    type Output = Permissions;

    fn bitor(self, other: Permissions) -> (r: Permissions)
        ensures
            r.0 == self.0 | other.0,
    {
        Permissions(self.0 | other.0)
    }
}

impl vstd::std_specs::ops::BitOrSpecImpl for Permissions {
    open spec fn obeys_bitor_spec() -> bool {
        true
    }

    open spec fn bitor_req(self, other: Permissions) -> bool {
        true
    }

    open spec fn bitor_spec(self, other: Permissions) -> Permissions {
        Permissions(self.0 | other.0)
    }
}

/// `&` is the intersection of two sets of the same kind, bit for bit.
impl BitAnd for Permissions {
    type Output = Permissions;

    fn bitand(self, other: Permissions) -> (r: Permissions)
        ensures
            r.0 == self.0 & other.0,
    {
        Permissions(self.0 & other.0)
    }
}

impl vstd::std_specs::ops::BitAndSpecImpl for Permissions {
    open spec fn obeys_bitand_spec() -> bool {
        true
    }

    open spec fn bitand_req(self, other: Permissions) -> bool {
        true
    }

    open spec fn bitand_spec(self, other: Permissions) -> Permissions {
        Permissions(self.0 & other.0)
    }
}

/// `^` is the symmetric difference of two sets of the same kind, bit for bit.
impl BitXor for Permissions {
    type Output = Permissions;

    fn bitxor(self, other: Permissions) -> (r: Permissions)
        ensures
            r.0 == self.0 ^ other.0,
    {
        Permissions(self.0 ^ other.0)
    }
}

impl vstd::std_specs::ops::BitXorSpecImpl for Permissions {
    open spec fn obeys_bitxor_spec() -> bool {
        true
    }

    open spec fn bitxor_req(self, other: Permissions) -> bool {
        true
    }

    open spec fn bitxor_spec(self, other: Permissions) -> Permissions {
        Permissions(self.0 ^ other.0)
    }
}

/// `!` complements every bit of the mask, the reserved ones too.
impl Not for Permissions {
    type Output = Permissions;

    fn not(self) -> (r: Permissions)
        ensures
            r.0 == !self.0,
    {
        Permissions(!self.0)
    }
}

impl vstd::std_specs::ops::NotSpecImpl for Permissions {
    open spec fn obeys_not_spec() -> bool {
        true
    }

    open spec fn not_req(self) -> bool {
        true
    }

    open spec fn not_spec(self) -> Permissions {
        Permissions(!self.0)
    }
}

impl BitOrAssign for Permissions {
    fn bitor_assign(&mut self, other: Permissions)
        ensures
            final(self).0 == old(self).0 | other.0,
    {
        self.0 |= other.0;
    }
}

impl BitAndAssign for Permissions {
    fn bitand_assign(&mut self, other: Permissions)
        ensures
            final(self).0 == old(self).0 & other.0,
    {
        self.0 &= other.0;
    }
}

impl BitXorAssign for Permissions {
    fn bitxor_assign(&mut self, other: Permissions)
        ensures
            final(self).0 == old(self).0 ^ other.0,
    {
        self.0 ^= other.0;
    }
}

impl From<u64> for Permissions {
    fn from(i: u64) -> (r: Permissions)
        ensures
            r.0 == i,
    {
        Permissions(i)
    }
}

impl vstd::std_specs::convert::FromSpecImpl<u64> for Permissions {
    open spec fn obeys_from_spec() -> bool {
        true
    }

    open spec fn from_spec(i: u64) -> Permissions {
        Permissions(i)
    }
}

impl From<Permissions> for u64 {
    fn from(f: Permissions) -> (r: u64)
        ensures
            r == f.0,
    {
        f.0
    }
}

impl vstd::std_specs::convert::FromSpecImpl<Permissions> for u64 {
    open spec fn obeys_from_spec() -> bool {
        true
    }

    open spec fn from_spec(f: Permissions) -> u64 {
        f.0
    }
}

/// Sets of the same kind are ordered by their masks.
impl PartialOrd for Permissions {
    fn partial_cmp(&self, other: &Self) -> (r: Option<Ordering>)
        ensures
            r == if self.0 < other.0 {
                Some(Ordering::Less)
            } else if self.0 == other.0 {
                Some(Ordering::Equal)
            } else {
                Some(Ordering::Greater)
            },
    {
        if self.0 < other.0 {
            Some(Ordering::Less)
        } else if self.0 == other.0 {
            Some(Ordering::Equal)
        } else {
            Some(Ordering::Greater)
        }
    }
}

impl vstd::std_specs::cmp::PartialOrdSpecImpl for Permissions {
    open spec fn obeys_partial_cmp_spec() -> bool {
        true
    }

    open spec fn partial_cmp_spec(&self, other: &Self) -> Option<Ordering> {
        if self.0 < other.0 {
            Some(Ordering::Less)
        } else if self.0 == other.0 {
            Some(Ordering::Equal)
        } else {
            Some(Ordering::Greater)
        }
    }
}

impl Permissions {
    /// The wire form of the set: that of its mask.
    pub fn serialize(&self) -> (r: WireValue)
        ensures
            r@ == encoded_u64(self.0),
    {
        serialize_u64(&self.0)
    }

    /// Reads a set from the wire, in either form of its mask.
    pub fn deserialize(wire: &WireValue) -> (r: Result<Self, Error>)
        ensures
            match decoded_u64(wire@) {
                Ok(bits) => r == Ok::<Self, Error>(Permissions(bits)),
                Err(e) => r == Err::<Self, Error>(e),
            },
    {
        match deserialize_u64(wire) {
            Ok(bits) => Ok(Permissions(bits)),
            Err(e) => Err(e),
        }
    }
}

impl BitFlag for Permissions {
    open spec fn mask(self) -> u64 {
        self.0
    }

    fn includes(self, other: Self) -> (r: bool)
        ensures
            r == (self.0 & other.0 == other.0),
    {
        proof {
            lemma_includes_bits(self.0, other.0);
        }
        (self.0 & other.0) == other.0
    }

    fn includes_any(self, other: Self) -> (r: bool)
        ensures
            r == (self.0 & other.0 != 0 || other.0 == 0),
    {
        proof {
            lemma_shares_bit(self.0, other.0);
        }
        (self.0 & other.0) != 0 || other.0 == 0
    }
}

/// OR, AND and XOR give the same set whichever operand comes first.
pub proof fn law_commutative(a: Permissions, b: Permissions)
    ensures
        a.bitor_spec(b) == b.bitor_spec(a),
        a.bitand_spec(b) == b.bitand_spec(a),
        a.bitxor_spec(b) == b.bitxor_spec(a),
{
    lemma_commutative_u64(a.0, b.0);
}

/// OR, AND and XOR give the same set however three operands are grouped.
pub proof fn law_associative(a: Permissions, b: Permissions, c: Permissions)
    ensures
        a.bitor_spec(b).bitor_spec(c) == a.bitor_spec(b.bitor_spec(c)),
        a.bitand_spec(b).bitand_spec(c) == a.bitand_spec(b.bitand_spec(c)),
        a.bitxor_spec(b).bitxor_spec(c) == a.bitxor_spec(b.bitxor_spec(c)),
{
    lemma_associative_u64(a.0, b.0, c.0);
}

/// De Morgan: the complement of a union is the intersection of the
/// complements, and the complement of an intersection is their union.
pub proof fn law_de_morgan(a: Permissions, b: Permissions)
    ensures
        a.bitor_spec(b).not_spec() == a.not_spec().bitand_spec(b.not_spec()),
        a.bitand_spec(b).not_spec() == a.not_spec().bitor_spec(b.not_spec()),
{
    lemma_de_morgan_u64(a.0, b.0);
}

} // verus!
