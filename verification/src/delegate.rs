//! The application's state: the session with the bridge and, once the
//! application has started, the menu.

use crate::api::{pairing_body, text_view, Session, SessionView, API_ROOT};
use crate::menu::{MenuDelegate, MenuView};
use crate::transport::{Method, Request, RequestView};
use vstd::prelude::*;

verus! {

/// What the application owns between its start and its end.
#[derive(Debug, PartialEq, Eq)]
pub struct AppDelegate {
    pub session: Session,
    /// The menu, present once [`AppDelegate::init`] has run.
    pub menu: Option<MenuDelegate>,
}

impl AppDelegate {
    /// The application before it has started, for the bridge at `host` and
    /// the credential `username` when one is known already.
    pub fn new(host: Option<String>, username: Option<String>) -> (r: AppDelegate)
        ensures
            r.menu is None,
            r.session@ == (SessionView {
                host: text_view(host),
                username: text_view(username),
                open: true,
            }),
    {
        AppDelegate { session: Session::new(host, username), menu: None }
    }

    /// Starts the application: creates the menu and, when no credential is
    /// known yet, builds the pairing call.
    pub fn init(&mut self) -> (r: Option<Request>)
        requires
            old(self).menu is None,
            old(self).session@.username is None ==> old(self).session@.host is Some,
        ensures
            final(self).session == old(self).session,
            final(self).menu matches Some(menu) && menu@ == (MenuView {
                loading: false,
                lights: Seq::empty(),
            }),
            match r {
                Some(request) => old(self).session@.username is None && request@ == (RequestView {
                    method: Method::Post,
                    host: old(self).session@.host->0,
                    path: API_ROOT@,
                    body: Some(pairing_body()),
                }),
                None => old(self).session@.username is Some,
            },
    {
        self.menu = Some(MenuDelegate::new());
        if self.session.is_authenticated() {
            None
        } else {
            Some(self.session.connect())
        }
    }

    /// Ends the application: shuts the session down.
    pub fn destroy(&mut self)
        ensures
            final(self).menu == old(self).menu,
            final(self).session@ == (SessionView { open: false, ..old(self).session@ }),
    {
        self.session.destroy();
    }
}

} // verus!
