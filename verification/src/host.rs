use vstd::prelude::*;

use copypasta::ClipboardProvider;

verus! {

/// Handle on the platform clipboard. It wraps the clipboard connection of
/// the `copypasta` crate; where connecting failed it is empty and behaves
/// as a clipboard that never has text and never accepts any, which is how
/// the session treats a machine without one. Verus sees nothing inside:
/// every use goes through the trusted methods below.
#[verifier::external_body]
pub struct ClipboardHandle {
    ctx: Option<copypasta::ClipboardContext>,
}

impl ClipboardHandle {
    /// Relies on copypasta's `ClipboardContext::new`: connects to the
    /// platform clipboard. The outcome depends on the machine, so nothing
    /// is promised of it.
    #[verifier::external_body]
    pub(crate) fn new() -> (r: ClipboardHandle) {
        ClipboardHandle { ctx: copypasta::ClipboardContext::new().ok() }
    }

    /// Relies on copypasta's `ClipboardProvider::get_contents`: reads the
    /// platform clipboard's current text. What comes back depends on the
    /// machine's state at that moment, so nothing is promised of it; where
    /// there is no clipboard or the read fails, the result is `None`.
    #[verifier::external_body]
    pub(crate) fn get(&mut self) -> (r: Option<String>) {
        match &mut self.ctx {
            Some(ctx) => ctx.get_contents().ok(),
            None => None,
        }
    }

    /// Relies on copypasta's `ClipboardProvider::set_contents`: replaces
    /// the platform clipboard's text, reporting whether that worked.
    #[verifier::external_body]
    pub(crate) fn set(&mut self, text: String) -> (r: bool) {
        match &mut self.ctx {
            Some(ctx) => ctx.set_contents(text).is_ok(),
            None => false,
        }
    }
}

/// Relies on `open::that_detached`: asks the system to open the address
/// with its default handler, without waiting for it, reporting whether the
/// request could be issued.
#[verifier::external_body]
pub(crate) fn open_url_detached(url: &str) -> (r: bool) {
    open::that_detached(url).is_ok()
}

} // verus!
