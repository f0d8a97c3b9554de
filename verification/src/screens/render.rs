//! What every screen with a list does before it is drawn.

use crate::app::{App, AppValue};
use crate::screens::screen::ItemSource;
use crate::widgets::list_state_at;
use vstd::prelude::*;

verus! {

/// The session made ready for the drawing of its list: a screen with fixed
/// entries has them as its entries, and the list state highlights the entry
/// on which the cursor stands.
pub open spec fn list_ready(app: AppValue) -> AppValue {
    AppValue {
        items: if app.current_screen.item_source() == ItemSource::Fixed {
            app.current_screen.menu()
        } else {
            app.items
        },
        state: Some(Some(app.cursor)),
        ..app
    }
}

/// Makes the session ready for the drawing of its list.
pub fn handle_screen_defaults(app: &mut App)
    ensures
        final(app)@ == list_ready(old(app)@),
        old(app)@.well_formed() ==> final(app)@.well_formed(),
{
    match app.current_screen.item_source() {
        ItemSource::Fixed => {
            app.items = app.current_screen.get_opts();
        },
        _ => {},
    }
    app.state = Some(list_state_at(app.cursor));
}

} // verus!
