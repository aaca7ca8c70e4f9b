//! Replies of the interactive listener, which tells each sender its chat
//! identifier so that it can be used as a webhook destination.

use vstd::prelude::*;
use crate::chat_id::{ChatId, decimal_text, push_chat_id};
use crate::relay::{SendRequest, TextMode};

verus! {

/// The explanation that opens every reply, in MarkdownV2.
pub open spec fn reply_intro() -> Seq<char> {
    "This bot is for sending custom notifications\\. If you found this randomly, it is probably not for you\\.\n\nYour personal ID is `"@
}

/// The text of the reply to a message from chat `id`: the explanation, then
/// the identifier in decimal, set as inline code.
pub open spec fn reply_text(id: int) -> Seq<char> {
    reply_intro() + decimal_text(id) + seq!['`']
}

/// The text of the reply to a message from `chat`.
pub fn reply_text_for(chat: ChatId) -> (r: String)
    ensures
        r@ == reply_text(chat.0 as int),
{
    let mut s = String::from_str(
        "This bot is for sending custom notifications\\. If you found this randomly, it is probably not for you\\.\n\nYour personal ID is `",
    );
    push_chat_id(&mut s, chat);
    s.append("`");
    proof {
        reveal_strlit("`");
    }
    assert(s@ =~= reply_text(chat.0 as int));
    s
}

/// The one reply to an inbound message from `chat`: sent back to that chat,
/// with notification, rendered as MarkdownV2.
pub fn plan_reply(chat: ChatId) -> (r: SendRequest)
    ensures
        r.chat_id == chat,
        r.text@ == reply_text(chat.0 as int),
        !r.silent,
        r.mode == TextMode::MarkdownV2,
{
    SendRequest { chat_id: chat, text: reply_text_for(chat), silent: false, mode: TextMode::MarkdownV2 }
}

/// The reply to a message from any chat holds that chat's identifier, in
/// decimal, as a contiguous piece of its text.
pub proof fn lemma_reply_contains_chat_id(chat: ChatId)
    ensures
        exists|i: int|
            0 <= i && i + decimal_text(chat.0 as int).len() <= reply_text(chat.0 as int).len()
                && #[trigger] reply_text(chat.0 as int).subrange(
                i,
                i + decimal_text(chat.0 as int).len(),
            ) == decimal_text(chat.0 as int),
{
    let d = decimal_text(chat.0 as int);
    let t = reply_text(chat.0 as int);
    let i = reply_intro().len() as int;
    assert(t.subrange(i, i + d.len()) =~= d);
}

} // verus!
