//! Geometry rules for X11 clients.

use vstd::prelude::*;

verus! {

/// A window rectangle: position then size.
#[derive(Debug, Clone, Copy, PartialEq, Eq, Structural)]
pub struct Geometry {
    pub x: i32,
    pub y: i32,
    pub w: i32,
    pub h: i32,
}

/// The geometry granted to an X11 configure request: each field the client
/// names replaces the current one; a requested size is read as a signed
/// 32-bit value (two's complement), as the X protocol carries it.
pub fn configure_geometry(
    x: Option<i32>,
    y: Option<i32>,
    w: Option<u32>,
    h: Option<u32>,
    current: Geometry,
) -> (r: Geometry)
    ensures
        r.x == (match x { Some(v) => v, None => current.x }),
        r.y == (match y { Some(v) => v, None => current.y }),
        r.w == (match w { Some(v) => v as i32, None => current.w }),
        r.h == (match h { Some(v) => v as i32, None => current.h }),
{
    let cw = current.w;
    let ch = current.h;
    assert((cw as u32) as i32 == cw) by (bit_vector);
    assert((ch as u32) as i32 == ch) by (bit_vector);
    let nx = match x { Some(v) => v, None => current.x };
    let ny = match y { Some(v) => v, None => current.y };
    let nw = (match w { Some(v) => v, None => cw as u32 }) as i32;
    let nh = (match h { Some(v) => v, None => ch as u32 }) as i32;
    Geometry { x: nx, y: ny, w: nw, h: nh }
}

} // verus!
