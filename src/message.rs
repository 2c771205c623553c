use vstd::prelude::*;

verus! {

/// The five fields of one inbound message notification, as plain text.
pub struct MessageView {
    pub message_sid: Seq<char>,
    pub account_sid: Seq<char>,
    pub from: Seq<char>,
    pub to: Seq<char>,
    pub body: Seq<char>,
}

/// One inbound message notification, as the provider posts it.
/// It is never changed once built: every accessor hands out a copy.
pub struct InboundMessage {
    message_sid: String,
    account_sid: String,
    from: String,
    to: String,
    body: String,
}

impl View for InboundMessage {
    type V = MessageView;

    closed spec fn view(&self) -> MessageView {
        MessageView {
            message_sid: self.message_sid@,
            account_sid: self.account_sid@,
            from: self.from@,
            to: self.to@,
            body: self.body@,
        }
    }
}

impl InboundMessage {
    pub fn new(message_sid: String, account_sid: String, from: String, to: String, body: String) -> (r: Self)
        ensures
            r@ == (MessageView {
                message_sid: message_sid@,
                account_sid: account_sid@,
                from: from@,
                to: to@,
                body: body@,
            }),
    {
        InboundMessage { message_sid, account_sid, from, to, body }
    }

    pub fn get_message_sid(&self) -> (r: String)
        ensures
            r@ == self@.message_sid,
    {
        self.message_sid.clone()
    }

    pub fn get_account_sid(&self) -> (r: String)
        ensures
            r@ == self@.account_sid,
    {
        self.account_sid.clone()
    }

    pub fn get_from(&self) -> (r: String)
        ensures
            r@ == self@.from,
    {
        self.from.clone()
    }

    pub fn get_to(&self) -> (r: String)
        ensures
            r@ == self@.to,
    {
        self.to.clone()
    }

    pub fn get_body(&self) -> (r: String)
        ensures
            r@ == self@.body,
    {
        self.body.clone()
    }
}

} // verus!
