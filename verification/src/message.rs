use crate::context::Context;
use crate::user::User;
use vstd::prelude::*;

verus! {

/// Who a message is from.
#[derive(Clone, Copy, Debug, PartialEq, Eq, Structural)]
pub enum Actor {
    User,
    Bot,
}

/// The pair of public URLs an uploaded generated image resolves to: the
/// original and its derived preview.
#[derive(Debug)]
pub struct ImageMessage {
    pub url: String,
    pub preview_url: String,
}

impl Clone for ImageMessage {
    fn clone(&self) -> (res: Self)
        ensures
            res == *self,
    {
        ImageMessage { url: self.url.clone(), preview_url: self.preview_url.clone() }
    }
}

/// One conversation turn. A user turn carries the reply token of the event
/// it arrived in; a classified turn carries a context; a bot image turn
/// carries an image payload and empty text.
#[derive(Debug)]
pub struct Message {
    pub user: User,
    pub from: Actor,
    pub text: String,
    pub context: Option<Context>,
    pub reply_token: Option<String>,
    pub image: Option<ImageMessage>,
}

impl Clone for Message {
    fn clone(&self) -> (res: Self)
        ensures
            res == *self,
    {
        Message {
            user: self.user.clone(),
            from: self.from,
            text: self.text.clone(),
            context: match &self.context {
                Some(c) => Some(c.clone()),
                None => None,
            },
            reply_token: match &self.reply_token {
                Some(t) => Some(t.clone()),
                None => None,
            },
            image: match &self.image {
                Some(m) => Some(m.clone()),
                None => None,
            },
        }
    }
}

/// Clones a list of messages, keeping the view unchanged.
pub fn clone_messages(v: &Vec<Message>) -> (r: Vec<Message>)
    ensures
        r@ == v@,
{
    let mut r: Vec<Message> = Vec::new();
    let mut i: usize = 0;
    while i < v.len()
        invariant
            i <= v.len(),
            r@ == v@.subrange(0, i as int),
        decreases v.len() - i,
    {
        r.push(v[i].clone());
        i = i + 1;
    }
    proof {
        assert(r@ =~= v@);
    }
    r
}

} // verus!
