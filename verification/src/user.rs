use crate::errors::PipelineError;
use vstd::prelude::*;

verus! {

/// A messaging-platform user, identified by the id the platform assigns.
#[derive(Debug)]
pub struct User {
    pub id: String,
}

impl Clone for User {
    fn clone(&self) -> (res: Self)
        ensures
            res == *self,
    {
        User { id: self.id.clone() }
    }
}

/// The classified intent of a user turn: the closed set of demands the
/// pipeline can serve. An unrecognized label is a hard error, never a
/// default.
#[derive(Clone, Copy, Debug, PartialEq, Eq, Structural)]
pub enum UserDemand {
    Chat,
    CreateImage,
}

impl UserDemand {
    /// Parses the classifier's demand label. Exactly the two labels of the
    /// closed enum are accepted; anything else is a classification error.
    pub fn try_from(value: String) -> (r: Result<UserDemand, PipelineError>)
        ensures
            r == Ok::<UserDemand, PipelineError>(UserDemand::Chat) <==> value@ == "Chat"@,
            r == Ok::<UserDemand, PipelineError>(UserDemand::CreateImage) <==> value@
                == "CreateImage"@,
            r is Err <==> (value@ != "Chat"@ && value@ != "CreateImage"@),
            r is Err ==> r == Err::<UserDemand, PipelineError>(PipelineError::Classification),
    {
        proof {
            reveal_strlit("Chat");
            reveal_strlit("CreateImage");
            assert("Chat"@.len() == 4);
            assert("CreateImage"@.len() == 11);
            assert("Chat"@ != "CreateImage"@);
        }
        let chat: String = String::from_str("Chat");
        if value == chat {
            return Ok(UserDemand::Chat);
        }
        let create_image: String = String::from_str("CreateImage");
        if value == create_image {
            return Ok(UserDemand::CreateImage);
        }
        Err(PipelineError::Classification)
    }
}

} // verus!
