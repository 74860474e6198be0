//! Where the parts of the login screen go.
use vstd::prelude::*;

use crate::buffer::{Rect, Vect, subdimensions_fit, offset_fits, rect_within};

verus! {

/// How far right of the login box the input fields start.
pub const FIELD_LEFT: u32 = 416;

/// How much room is left right of the input fields.
pub const FIELD_RIGHT_MARGIN: u32 = 32;

/// The height of an input field.
pub const FIELD_HEIGHT: u32 = 32;

/// How far below the top of the login box the username field is.
pub const USERNAME_TOP: u32 = 24;

/// How far below the top of the login box the password field is.
pub const PASSWORD_TOP: u32 = 64;

/// How far right of the login box's left edge the title starts.
pub const TITLE_LEFT: u32 = 32;

/// How far right of the login box's left edge the field labels start.
pub const LABEL_LEFT: u32 = 256;

/// How far left of the screen's middle the welcome line starts.
pub const WELCOME_HALF_WIDTH: u32 = 300;

/// How far below the top of the screen the welcome line is.
pub const WELCOME_TOP: u32 = 32;

/// Where the box of `dimensions` starts so that it stands in the middle of
/// `screen`.
pub open spec fn centered_offset_spec(screen: Vect, dimensions: Vect) -> Vect {
    (((screen.0 - dimensions.0) / 2) as u32, ((screen.1 - dimensions.1) / 2) as u32)
}

/// The rectangle of the input field `top` pixels below the top of the box
/// of `dimensions` centered on `screen`.
pub open spec fn field_rect_spec(screen: Vect, dimensions: Vect, top: u32) -> Rect {
    let o = centered_offset_spec(screen, dimensions);
    (
        (o.0 + FIELD_LEFT) as u32,
        (o.1 + top) as u32,
        (dimensions.0 - FIELD_LEFT - FIELD_RIGHT_MARGIN) as u32,
        FIELD_HEIGHT,
    )
}

/// Where the login box of `dimensions` starts so that it stands in the
/// middle of `screen`.
pub fn centered_offset(screen: Vect, dimensions: Vect) -> (r: Vect)
    requires
        dimensions.0 <= screen.0,
        dimensions.1 <= screen.1,
    ensures
        r == centered_offset_spec(screen, dimensions),
{
    ((screen.0 - dimensions.0) / 2, (screen.1 - dimensions.1) / 2)
}

/// The box's input field `top` pixels below its top, on the screen.
fn field_rect(screen: Vect, dimensions: Vect, top: u32) -> (r: Rect)
    requires
        dimensions.0 <= screen.0,
        dimensions.1 <= screen.1,
        FIELD_LEFT + FIELD_RIGHT_MARGIN <= dimensions.0,
        top <= PASSWORD_TOP,
    ensures
        r == field_rect_spec(screen, dimensions, top),
{
    let (x, y) = centered_offset(screen, dimensions);
    (x + FIELD_LEFT, y + top, dimensions.0 - FIELD_LEFT - FIELD_RIGHT_MARGIN, FIELD_HEIGHT)
}

/// Where the username is drawn.
pub fn username_field(screen: Vect, dimensions: Vect) -> (r: Rect)
    requires
        dimensions.0 <= screen.0,
        dimensions.1 <= screen.1,
        FIELD_LEFT + FIELD_RIGHT_MARGIN <= dimensions.0,
    ensures
        r == field_rect_spec(screen, dimensions, USERNAME_TOP),
{
    field_rect(screen, dimensions, USERNAME_TOP)
}

/// Where the password is drawn.
pub fn password_field(screen: Vect, dimensions: Vect) -> (r: Rect)
    requires
        dimensions.0 <= screen.0,
        dimensions.1 <= screen.1,
        FIELD_LEFT + FIELD_RIGHT_MARGIN <= dimensions.0,
    ensures
        r == field_rect_spec(screen, dimensions, PASSWORD_TOP),
{
    field_rect(screen, dimensions, PASSWORD_TOP)
}

/// Where the welcome line starts on `screen`.
pub fn welcome_offset(screen: Vect) -> (r: Vect)
    requires
        WELCOME_HALF_WIDTH <= screen.0 / 2,
    ensures
        r == ((screen.0 / 2 - WELCOME_HALF_WIDTH) as u32, WELCOME_TOP),
{
    (screen.0 / 2 - WELCOME_HALF_WIDTH, WELCOME_TOP)
}

/// Where the title is written, from the top left of the login box.
pub fn title_offset() -> (r: Vect)
    ensures
        r == (TITLE_LEFT, USERNAME_TOP),
{
    (TITLE_LEFT, USERNAME_TOP)
}

/// Where the username label is written, from the top left of the login
/// box: level with the username field.
pub fn username_label_offset() -> (r: Vect)
    ensures
        r == (LABEL_LEFT, USERNAME_TOP),
{
    (LABEL_LEFT, USERNAME_TOP)
}

/// Where the password label is written, from the top left of the login
/// box: level with the password field.
pub fn password_label_offset() -> (r: Vect)
    ensures
        r == (LABEL_LEFT, PASSWORD_TOP),
{
    (LABEL_LEFT, PASSWORD_TOP)
}

/// In a login box wide and high enough for the labels' corners, the
/// title and both labels are accepted as offsets into it, and they stand
/// left of the input fields, each label level with its field.
pub proof fn labels_inside_box(dimensions: Vect, bx: Rect)
    requires
        bx.2 == dimensions.0,
        bx.3 == dimensions.1,
        LABEL_LEFT <= dimensions.0,
        PASSWORD_TOP <= dimensions.1,
    ensures
        offset_fits(bx, (TITLE_LEFT, USERNAME_TOP)),
        offset_fits(bx, (LABEL_LEFT, USERNAME_TOP)),
        offset_fits(bx, (LABEL_LEFT, PASSWORD_TOP)),
        TITLE_LEFT < LABEL_LEFT < FIELD_LEFT,
{
}

/// The centered box lies on the screen, with the margins left and right
/// (and above and below) equal or the far one a pixel wider.
pub proof fn centered_box_on_screen(screen: Vect, dimensions: Vect)
    requires
        dimensions.0 <= screen.0,
        dimensions.1 <= screen.1,
    ensures
        ({
            let o = centered_offset_spec(screen, dimensions);
            &&& rect_within((o.0, o.1, dimensions.0, dimensions.1), screen)
            &&& screen.0 - (o.0 + dimensions.0) - o.0 == (screen.0 - dimensions.0) % 2
            &&& screen.1 - (o.1 + dimensions.1) - o.1 == (screen.1 - dimensions.1) % 2
        }),
{
}

/// On a screen no smaller than the box, with the box high enough for the
/// password field, the box and both input fields are accepted as
/// sub-rectangles of the whole screen, and the welcome line as an offset
/// into it.
pub proof fn screen_parts_accepted(screen: Vect, dimensions: Vect)
    requires
        dimensions.0 <= screen.0,
        dimensions.1 <= screen.1,
        FIELD_LEFT + FIELD_RIGHT_MARGIN <= dimensions.0,
        PASSWORD_TOP + FIELD_HEIGHT <= dimensions.1,
        WELCOME_HALF_WIDTH <= screen.0 / 2,
    ensures
        ({
            let whole: Rect = (0, 0, screen.0, screen.1);
            let o = centered_offset_spec(screen, dimensions);
            &&& subdimensions_fit(whole, (o.0, o.1, dimensions.0, dimensions.1))
            &&& subdimensions_fit(whole, field_rect_spec(screen, dimensions, USERNAME_TOP))
            &&& subdimensions_fit(whole, field_rect_spec(screen, dimensions, PASSWORD_TOP))
            &&& offset_fits(whole, ((screen.0 / 2 - WELCOME_HALF_WIDTH) as u32, WELCOME_TOP))
        }),
{
}

/// Each input field starts `FIELD_LEFT` pixels right of the box's left
/// edge, ends `FIELD_RIGHT_MARGIN` pixels before its right edge, is
/// `FIELD_HEIGHT` high, and stands `top` pixels below the box's top.
pub proof fn fields_placed_in_box(screen: Vect, dimensions: Vect, top: u32)
    requires
        dimensions.0 <= screen.0,
        dimensions.1 <= screen.1,
        FIELD_LEFT + FIELD_RIGHT_MARGIN <= dimensions.0,
        top <= PASSWORD_TOP,
    ensures
        ({
            let o = centered_offset_spec(screen, dimensions);
            let f = field_rect_spec(screen, dimensions, top);
            &&& f.0 == o.0 + FIELD_LEFT
            &&& f.0 + f.2 + FIELD_RIGHT_MARGIN == o.0 + dimensions.0
            &&& f.1 == o.1 + top
            &&& f.3 == FIELD_HEIGHT
        }),
{
}

} // verus!
