//! Members of private conversations.
use crate::ids::UserId;
use crate::payload::{ChannelRecipientInfo, PresenceStatus, RecipientInfoView};
use crate::text::{comma_join, comma_joined, text_view, text_views};
use crate::views::{first_of, ref_view};
use vstd::prelude::*;

verus! {

#[derive(Debug, PartialEq, Eq)]
pub struct ChannelRecipientState {
    pub user_id: UserId,
    pub display_name: String,
    /// Login handle, which mentions can be completed from besides the display name.
    pub username: Option<String>,
    pub is_bot: bool,
    pub avatar_url: Option<String>,
    pub status: PresenceStatus,
}

pub struct RecipientView {
    pub user_id: UserId,
    pub display_name: Seq<char>,
    pub username: Option<Seq<char>>,
    pub is_bot: bool,
    pub avatar_url: Option<Seq<char>>,
    pub status: PresenceStatus,
}

impl View for ChannelRecipientState {
    type V = RecipientView;

    open spec fn view(&self) -> RecipientView {
        RecipientView {
            user_id: self.user_id,
            display_name: self.display_name@,
            username: text_view(self.username),
            is_bot: self.is_bot,
            avatar_url: text_view(self.avatar_url),
            status: self.status,
        }
    }
}

impl Clone for ChannelRecipientState {
    fn clone(&self) -> (copy: Self)
        ensures
            copy@ == self@,
    {
        ChannelRecipientState {
            user_id: self.user_id,
            display_name: self.display_name.clone(),
            username: self.username.clone(),
            is_bot: self.is_bot,
            avatar_url: self.avatar_url.clone(),
            status: self.status,
        }
    }
}

pub open spec fn recipient_views(recipients: Seq<ChannelRecipientState>) -> Seq<RecipientView> {
    recipients.map_values(|recipient: ChannelRecipientState| recipient@)
}

/// The login handle that a payload gives for an optional user.
pub open spec fn info_username(user: Option<RecipientInfoView>) -> Option<Seq<char>> {
    match user {
        Some(user) => user.username,
        None => None,
    }
}

/// The login handle of an optional recipient.
pub open spec fn recipient_username(user: Option<RecipientView>) -> Option<Seq<char>> {
    match user {
        Some(user) => user.username,
        None => None,
    }
}

impl RecipientView {
    /// A recipient made of the newest payload, and, for what that leaves out, of what the
    /// session started with and of what was known before.
    pub open spec fn from_info(
        recipient: RecipientInfoView,
        previous: Option<RecipientView>,
        ready_user: Option<RecipientInfoView>,
        known_status: Option<PresenceStatus>,
        display_name: Seq<char>,
    ) -> RecipientView {
        RecipientView {
            user_id: recipient.user_id,
            display_name,
            username: first_of(
                first_of(recipient.username, info_username(ready_user)),
                recipient_username(previous),
            ),
            is_bot: {
                ||| recipient.is_bot
                ||| match ready_user {
                    Some(user) => user.is_bot,
                    None => false,
                }
                ||| match previous {
                    Some(user) => user.is_bot,
                    None => false,
                }
            },
            avatar_url: first_of(
                first_of(
                    recipient.avatar_url,
                    match ready_user {
                        Some(user) => user.avatar_url,
                        None => None,
                    },
                ),
                match previous {
                    Some(user) => user.avatar_url,
                    None => None,
                },
            ),
            status: match recipient.status {
                Some(status) => status,
                None => match previous {
                    Some(user) => user.status,
                    None => match known_status {
                        Some(status) => status,
                        None => PresenceStatus::Unknown,
                    },
                },
            },
        }
    }
}

impl ChannelRecipientState {
    pub fn from_info(
        recipient: &ChannelRecipientInfo,
        previous: Option<&ChannelRecipientState>,
        ready_user: Option<&ChannelRecipientInfo>,
        known_status: Option<PresenceStatus>,
        display_name: String,
    ) -> (state: ChannelRecipientState)
        ensures
            state@ == RecipientView::from_info(
                recipient@,
                ref_view(previous),
                ref_view(ready_user),
                known_status,
                display_name@,
            ),
    {
        let mut username = recipient.username.clone();
        let mut avatar_url = recipient.avatar_url.clone();
        // Recipients of private channels are partial user objects that leave the bot flag out.
        // Once another source proves that the account is a bot, a later partial payload must
        // not turn it back into a user.
        let mut is_bot = recipient.is_bot;
        if let Some(user) = ready_user {
            if username.is_none() {
                username = user.username.clone();
            }
            if avatar_url.is_none() {
                avatar_url = user.avatar_url.clone();
            }
            is_bot = is_bot || user.is_bot;
        }
        if let Some(user) = previous {
            if username.is_none() {
                username = user.username.clone();
            }
            if avatar_url.is_none() {
                avatar_url = user.avatar_url.clone();
            }
            is_bot = is_bot || user.is_bot;
        }
        let status = match recipient.status {
            Some(status) => status,
            None => match previous {
                Some(user) => user.status,
                None => known_status.unwrap_or(PresenceStatus::Unknown),
            },
        };
        ChannelRecipientState {
            user_id: recipient.user_id,
            display_name,
            username,
            is_bot,
            avatar_url,
            status,
        }
    }
}

/// The first recipient that is the given user.
pub open spec fn find_recipient(recipients: Seq<RecipientView>, user_id: UserId) -> Option<
    RecipientView,
>
    decreases recipients.len(),
{
    if recipients.len() == 0 {
        None
    } else if recipients[0].user_id == user_id {
        Some(recipients[0])
    } else {
        find_recipient(recipients.skip(1), user_id)
    }
}

/// The first recipient that is the given user.
pub fn recipient_with_id(recipients: &[ChannelRecipientState], user_id: UserId) -> (found: Option<
    &ChannelRecipientState,
>)
    ensures
        ref_view(found) == find_recipient(recipient_views(recipients@), user_id),
{
    let ghost views = recipient_views(recipients@);
    let mut i: usize = 0;
    assert(views.skip(0) =~= views);
    while i < recipients.len()
        invariant
            i <= recipients.len(),
            views == recipient_views(recipients@),
            find_recipient(views, user_id) == find_recipient(views.skip(i as int), user_id),
        decreases recipients.len() - i,
    {
        proof {
            assert(views.skip(i as int)[0] == views[i as int]);
            assert(views.skip(i as int).skip(1) =~= views.skip(i + 1));
        }
        if recipients[i].user_id == user_id {
            return Some(&recipients[i]);
        }
        i += 1;
    }
    None
}

/// The names under which recipients are shown.
pub open spec fn display_names(recipients: Seq<RecipientView>) -> Seq<Seq<char>> {
    recipients.map_values(|recipient: RecipientView| recipient.display_name)
}

/// The names under which recipients are shown.
pub fn recipient_display_names(recipients: &[ChannelRecipientState]) -> (names: Vec<String>)
    ensures
        text_views(names@) == display_names(recipient_views(recipients@)),
{
    let mut names: Vec<String> = Vec::new();
    let mut i: usize = 0;
    while i < recipients.len()
        invariant
            i <= recipients.len(),
            names@.len() == i,
            forall|j: int| 0 <= j < i ==> (#[trigger] names@[j])@ == recipients@[j].display_name@,
        decreases recipients.len() - i,
    {
        names.push(recipients[i].display_name.clone());
        i += 1;
    }
    assert(text_views(names@) =~= display_names(recipient_views(recipients@)));
    names
}

/// The names under which recipients are shown, with a comma and a space between two of them.
pub fn joined_recipient_display_names(recipients: &[ChannelRecipientState]) -> (joined: String)
    ensures
        joined@ == comma_joined(display_names(recipient_views(recipients@))),
{
    let names = recipient_display_names(recipients);
    comma_join(names.as_slice())
}

} // verus!
