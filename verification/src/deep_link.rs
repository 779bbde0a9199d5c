//! Delivery of deep links (URLs that launched or reached the app) to the
//! handler the app installed.
use vstd::prelude::*;

verus! {

/// The deep-link handler of an app, if one is installed. A handler accepts
/// every URL.
pub struct DeepLinkHandlers<H> {
    handler: Option<H>,
}

impl<H: Fn(String)> DeepLinkHandlers<H> {
    /// The installed handler, if any.
    pub closed spec fn handler(&self) -> Option<H> {
        self.handler
    }

    /// An installed handler takes any URL.
    pub open spec fn wf(&self) -> bool {
        self.handler() matches Some(h) ==> forall|url: String| #[trigger] h.requires((url,))
    }

    /// No handler installed.
    pub fn new() -> (r: Self)
        ensures
            r.handler() is None,
            r.wf(),
    {
        DeepLinkHandlers { handler: None }
    }
}

/// Installs `handler`, in place of the one installed before, if any.
pub fn set_deep_link_handler<H: Fn(String)>(handlers: &mut DeepLinkHandlers<H>, handler: H)
    requires
        forall|url: String| #[trigger] handler.requires((url,)),
    ensures
        final(handlers).handler() == Some(handler),
        final(handlers).wf(),
{
    handlers.handler = Some(handler);
}

/// Hands `url` to the installed handler, if there is one; answers whether
/// there was.
pub fn handle_deep_link<H: Fn(String)>(handlers: &DeepLinkHandlers<H>, url: String) -> (delivered: bool)
    requires
        handlers.wf(),
    ensures
        delivered == handlers.handler() is Some,
        handlers.handler() matches Some(h) ==> h.ensures((url,), ()),
{
    match &handlers.handler {
        Some(handler) => {
            handler(url);
            true
        },
        None => false,
    }
}

/// Makes the app the handler of the URL scheme `scheme`. On every platform
/// the registration is made when the app is installed (by the files that the
/// build tool writes), so nothing is done at run time.
pub fn register_protocol_scheme(scheme: &str) {
    let _ = scheme;
}

} // verus!
