//! Names of private conversations that were not given by hand follow the people in them.
use crate::channel::{is_dm_kind, spec_is_dm_kind, ChannelState, ChannelView};
use crate::ids::ChannelId;
use crate::recipient::{display_names, joined_recipient_display_names};
use crate::text::{comma_join, comma_joined, decimal, push_decimal, same_text, text_views};
use vstd::prelude::*;
use vstd::string::*;

verus! {

/// The name of a private conversation without anybody to name it after.
pub open spec fn placeholder_name(channel_id: ChannelId) -> Seq<char> {
    "dm-"@ + decimal(channel_id.value as nat)
}

pub fn placeholder(channel_id: ChannelId) -> (name: String)
    ensures
        name@ == placeholder_name(channel_id),
{
    let mut name = "dm-".to_owned();
    push_decimal(&mut name, channel_id.get());
    name
}

/// A name follows the recipients in every one-to-one conversation, where it is the
/// placeholder, and where it lists the recipients.
pub open spec fn name_follows_recipients(
    kind: Seq<char>,
    current_name: Seq<char>,
    channel_id: ChannelId,
    recipient_names: Seq<Seq<char>>,
) -> bool {
    ||| spec_is_dm_kind(kind)
    ||| current_name == placeholder_name(channel_id)
    ||| current_name == comma_joined(recipient_names)
}

pub fn private_channel_name_follows_recipients(
    kind: &str,
    current_name: &str,
    channel_id: ChannelId,
    recipient_names: &[String],
) -> (follows: bool)
    ensures
        follows == name_follows_recipients(
            kind@,
            current_name@,
            channel_id,
            text_views(recipient_names@),
        ),
{
    is_dm_kind(kind) || same_text(current_name, placeholder(channel_id).as_str()) || same_text(
        current_name,
        comma_join(recipient_names).as_str(),
    )
}

impl ChannelView {
    /// The channel after its recipients changed from people called `previous_names`.
    pub open spec fn renamed_after(self, previous_names: Seq<Seq<char>>) -> ChannelView {
        let joined = comma_joined(display_names(self.recipients));
        if self.guild_id is Some || !name_follows_recipients(
            self.kind,
            self.name,
            self.id,
            previous_names,
        ) {
            self
        } else {
            ChannelView {
                name: if joined.len() == 0 {
                    placeholder_name(self.id)
                } else {
                    joined
                },
                ..self
            }
        }
    }
}

/// Renames a private conversation whose name followed the people called `previous_names`.
pub fn refresh_private_channel_name_from_recipients(
    channel: &mut ChannelState,
    previous_names: &[String],
)
    ensures
        final(channel)@ == old(channel)@.renamed_after(text_views(previous_names@)),
{
    if channel.guild_id.is_some() {
        return;
    }
    if !private_channel_name_follows_recipients(
        channel.kind.as_str(),
        channel.name.as_str(),
        channel.id,
        previous_names,
    ) {
        return;
    }
    let new_name = joined_recipient_display_names(channel.recipients.as_slice());
    channel.name = if new_name.as_str().is_empty() {
        placeholder(channel.id)
    } else {
        new_name
    };
}

} // verus!
