//! The record of the signed-in user.

use crate::client_message::{FetchUserReq, Payload};
use crate::server_message::FetchUserResp;
use crate::service_provider::Service;
use crate::ws_cross::{WebSocket, WebSocketError};
use vstd::prelude::*;

verus! {

/// The key under which the record is kept in local storage.
pub const USER_INFO_KEY: &'static str = "user_info";

/// The user's record as the backend sent it, still encoded.
#[derive(Debug, Clone, PartialEq)]
pub struct UserInfo {
    pub record: Vec<u8>,
}

/// The user service: the record, once it has been fetched.
#[derive(Debug, Clone, PartialEq)]
pub struct UserService {
    pub user_info: Option<UserInfo>,
}

impl Service for UserService {
    open spec fn initial() -> Self {
        UserService { user_info: None }
    }

    fn instance() -> (service: Self) {
        UserService { user_info: None }
    }
}

impl UserService {
    /// The service with the record found in local storage, if any.
    pub fn with_stored(stored: Option<UserInfo>) -> (service: Self)
        ensures
            service.user_info == stored,
    {
        UserService { user_info: stored }
    }

    /// The frame that asks the backend for the user's record, ready for the
    /// link; `NotConnected` where there is no link.
    pub fn fetch_user_info(&self, network: &WebSocket) -> (frame: Result<Vec<u8>, WebSocketError>)
        ensures
            match frame {
                Ok(bytes) => network.state is Connected && bytes@ == WebSocket::frame(
                    Payload::FetchUserReq(FetchUserReq {  }),
                ),
                Err(e) => network.state is Init && e == WebSocketError::NotConnected,
            },
    {
        network.send(Payload::FetchUserReq(FetchUserReq {  }))
    }

    /// Takes in the record the backend sent.
    pub fn on_fetch_user_resp(&mut self, resp: FetchUserResp)
        ensures
            final(self).user_info == Some(UserInfo { record: resp.body }),
    {
        self.user_info = Some(UserInfo { record: resp.body });
    }
}

} // verus!
