use vstd::prelude::*;

use crate::services::heif_api::{GetInfoRequest, GetInfoResponse};
use crate::services::status::Status;

verus! {

/// Answers questions about HEIF files.
#[derive(Debug, Default)]
pub struct InfoService {}

impl InfoService {
    /// Answers an information request; the dimensions are not read from the
    /// file yet and are reported as zero.
    pub fn get_info(&self, request: &GetInfoRequest) -> (r: Result<GetInfoResponse, Status>)
        ensures
            r matches Ok(response) && response.width == 0 && response.height == 0,
    {
        Ok(GetInfoResponse { width: 0, height: 0 })
    }
}

} // verus!
