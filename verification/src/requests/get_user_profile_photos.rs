use crate::requests::Request;
use vstd::prelude::*;

verus! {

/// Use this struct to send text messages. On success, the sent `Message` is returned.
#[derive(Debug, Clone)]
pub struct GetUserProfilePhotos {
    /// Unique identifier of the target user
    pub user_id: i64,
    /// Sequential number of the first photo to be returned. By default, all photos are returned
    pub offset: Option<i64>,
    /// Limits the number of photos to be retrieved. Values between 1-100 are accepted. Defaults to 100
    pub limit: Option<i64>,
}

impl Request for GetUserProfilePhotos {
    open spec fn method_name(&self) -> Seq<char> {
        "getUserProfilePhotos"@
    }

    fn method(&self) -> (name: &'static str) {
        "getUserProfilePhotos"
    }
}

impl GetUserProfilePhotos {
    /// A request with the values given and every option left out.
    pub fn new(user_id: i64) -> (request: Self)
        ensures
            request == (GetUserProfilePhotos {
                user_id,
                offset: None,
                limit: None,
            }),
    {
        GetUserProfilePhotos {
            user_id,
            offset: None,
            limit: None,
        }
    }
}

} // verus!
