//! The one operation that the front end can invoke.

use crate::desktop::{Desktop, Host};
use crate::tray::text_view;
use vstd::prelude::*;

verus! {

/// Sets the tray icon's displayed title to `title`, or clears it where `title`
/// is `None`. Where there is no tray icon, or where the host fails the
/// request, nothing changes. Returns nothing and never fails.
pub fn update_tray_title(desktop: &mut Desktop, title: Option<String>, host: Host)
    ensures
        final(desktop)@ == old(desktop)@.retitled(text_view(title), host),
{
    match &mut desktop.tray {
        Some(tray) => {
            if host.title {
                tray.set_title(title);
            }
        },
        None => {},
    }
}

} // verus!
