//! The two cookies a browser carries for this site: the encrypted session
//! token and a one-shot notice shown on the next page.
use vstd::prelude::*;

verus! {

/// The cookie jar of one request, as the site uses it.
pub struct SessionCookies {
    /// The session token (`jwt` cookie), if any.
    pub jwt: Option<String>,
    /// The pending notice (`notice` cookie), if any.
    pub notice: Option<String>,
}

impl SessionCookies {
    pub fn new() -> (r: SessionCookies)
        ensures
            r.jwt is None,
            r.notice is None,
    {
        SessionCookies { jwt: None, notice: None }
    }

    /// Reads the pending notice and clears it, so that it shows only once.
    pub fn take_notice(&mut self) -> (r: Option<String>)
        ensures
            r == old(self).notice,
            final(self).notice is None,
            final(self).jwt == old(self).jwt,
    {
        let r = self.notice.take();
        r
    }

    /// Leaves `text` as the notice for the next page.
    pub fn set_notice(&mut self, text: String)
        ensures
            final(self).notice == Some(text),
            final(self).jwt == old(self).jwt,
    {
        self.notice = Some(text);
    }
}

/// Ends the session: the token cookie goes, nothing else changes. Returns the
/// path to redirect to.
pub fn logout(cookies: &mut SessionCookies) -> (r: String)
    ensures
        final(cookies).jwt is None,
        final(cookies).notice == old(cookies).notice,
        r@ == "/"@,
{
    cookies.jwt = None;
    String::from_str("/")
}

} // verus!
