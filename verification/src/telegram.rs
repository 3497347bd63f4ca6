use vstd::prelude::*;

use crate::constants::{TELEGRAM_API_BASE, TELEGRAM_SEND_MESSAGE_METHOD, TELEGRAM_SEND_PHOTO_METHOD};

verus! {

/// The Telegram bot and chat that alerts go to.
pub struct TelegramClient {
    bot_token: String,
    chat_id: String,
}

/// The Bot API URL of a method for a bot.
pub open spec fn api_url(bot_token: Seq<char>, method: &'static str) -> Seq<char> {
    TELEGRAM_API_BASE@ + bot_token + method@
}

impl TelegramClient {
    pub closed spec fn spec_bot_token(&self) -> Seq<char> {
        self.bot_token@
    }

    pub closed spec fn spec_chat_id(&self) -> Seq<char> {
        self.chat_id@
    }

    pub fn new(bot_token: String, chat_id: String) -> (client: Self)
        ensures
            client.spec_bot_token() == bot_token@,
            client.spec_chat_id() == chat_id@,
    {
        TelegramClient { bot_token, chat_id }
    }

    /// The chat that messages and photos are sent to.
    pub fn chat_id(&self) -> (id: &str)
        ensures
            id@ == self.spec_chat_id(),
    {
        self.chat_id.as_str()
    }

    fn method_url(&self, method: &'static str) -> (url: String)
        ensures
            url@ == api_url(self.spec_bot_token(), method),
    {
        let base = String::from_str(TELEGRAM_API_BASE);
        let with_token = base.concat(self.bot_token.as_str());
        with_token.concat(method)
    }

    /// The URL that text messages are posted to.
    pub fn send_message_url(&self) -> (url: String)
        ensures
            url@ == api_url(self.spec_bot_token(), TELEGRAM_SEND_MESSAGE_METHOD),
            url@ == "https://api.telegram.org/bot"@ + self.spec_bot_token() + "/sendMessage"@,
    {
        self.method_url(TELEGRAM_SEND_MESSAGE_METHOD)
    }

    /// The URL that photos are posted to.
    pub fn send_photo_url(&self) -> (url: String)
        ensures
            url@ == api_url(self.spec_bot_token(), TELEGRAM_SEND_PHOTO_METHOD),
            url@ == "https://api.telegram.org/bot"@ + self.spec_bot_token() + "/sendPhoto"@,
    {
        self.method_url(TELEGRAM_SEND_PHOTO_METHOD)
    }
}

/// The Bot API URLs hold the whole token, unchanged, right after the fixed
/// prefix `https://api.telegram.org/bot`, followed by the method path and
/// nothing else.
pub proof fn lemma_api_url_holds_whole_token(bot_token: Seq<char>)
    ensures
        api_url(bot_token, TELEGRAM_SEND_MESSAGE_METHOD) == "https://api.telegram.org/bot"@
            + bot_token + "/sendMessage"@,
        api_url(bot_token, TELEGRAM_SEND_PHOTO_METHOD) == "https://api.telegram.org/bot"@
            + bot_token + "/sendPhoto"@,
        api_url(bot_token, TELEGRAM_SEND_MESSAGE_METHOD).len() == 28 + bot_token.len() + 12,
        api_url(bot_token, TELEGRAM_SEND_PHOTO_METHOD).len() == 28 + bot_token.len() + 10,
        api_url(bot_token, TELEGRAM_SEND_MESSAGE_METHOD).subrange(28, 28 + bot_token.len() as int)
            == bot_token,
        api_url(bot_token, TELEGRAM_SEND_PHOTO_METHOD).subrange(28, 28 + bot_token.len() as int)
            == bot_token,
{
    reveal_strlit("https://api.telegram.org/bot");
    reveal_strlit("/sendMessage");
    reveal_strlit("/sendPhoto");
    let m = api_url(bot_token, TELEGRAM_SEND_MESSAGE_METHOD);
    let p = api_url(bot_token, TELEGRAM_SEND_PHOTO_METHOD);
    assert(m.subrange(28, 28 + bot_token.len() as int) =~= bot_token);
    assert(p.subrange(28, 28 + bot_token.len() as int) =~= bot_token);
}

} // verus!
