use vstd::prelude::*;

verus! {

/// An exact rational coordinate `num / den` in logical screen units.
#[derive(Clone, Copy, Debug, PartialEq, Eq, Structural)]
pub struct Coord {
    pub num: i128,
    pub den: i128,
}

/// Largest magnitude of a numerator that the transform accepts.
pub const NUM_BOUND: i128 = 0x1_0000_0000_0000_0000_0000_0000;

/// Largest denominator that the transform accepts.
pub const DEN_BOUND: i128 = 0x1_0000_0000;

impl Coord {
    /// The coordinate zero.
    pub fn zero() -> (r: Coord)
        ensures
            r.num == 0,
            r.den == 1,
    {
        Coord { num: 0, den: 1 }
    }

    /// A positive denominator and a numerator small enough for the rotation arithmetic.
    pub open spec fn bounded(self) -> bool {
        0 < self.den <= DEN_BOUND && -NUM_BOUND <= self.num <= NUM_BOUND
    }

    /// `0 <= num / den <= hi`.
    pub open spec fn within(self, hi: int) -> bool {
        0 < self.den && 0 <= self.num && self.num <= hi * self.den
    }
}

/// One multi-touch slot: contact state and position in logical screen units.
#[derive(Clone, Copy, Debug, PartialEq, Eq, Structural)]
pub struct FingerState {
    pub is_down: bool,
    pub x: Coord,
    pub y: Coord,
}

impl Default for FingerState {
    fn default() -> (r: FingerState)
        ensures
            r.idle(),
    {
        FingerState::new()
    }
}

/// The published pointer is one finger, projected into the current orientation.
pub type MousePos = FingerState;

impl FingerState {
    /// A lifted finger at the origin.
    pub fn new() -> (r: FingerState)
        ensures
            r.idle(),
    {
        FingerState { is_down: false, x: Coord::zero(), y: Coord::zero() }
    }

    pub open spec fn bounded(self) -> bool {
        self.x.bounded() && self.y.bounded()
    }

    /// Lifted, at the origin.
    pub open spec fn idle(self) -> bool {
        !self.is_down && self.x == (Coord { num: 0, den: 1 }) && self.y == (Coord {
            num: 0,
            den: 1,
        })
    }
}

/// `r` is `f` seen on a screen of portrait size `w` x `h` rotated by `orientation`:
/// a quarter turn (1) maps `(x, y)` to `(y, w - x)`, three quarters (3) map it to
/// `(h - y, x)`, and every other code leaves the position as it is.
pub open spec fn rotated(w: int, h: int, orientation: u8, f: FingerState, r: FingerState) -> bool {
    r.is_down == f.is_down && if orientation == 1 {
        r.x == f.y && r.y.den == f.x.den && r.y.num == w * f.x.den - f.x.num
    } else if orientation == 3 {
        r.y == f.x && r.x.den == f.y.den && r.x.num == h * f.y.den - f.y.num
    } else {
        r == f
    }
}

/// Maps a finger's position into the logical orientation of the screen.
pub fn touch_2_screen(
    screen_width: u32,
    screen_height: u32,
    realtime_orientation: u8,
    phy_mouse_pos: MousePos,
) -> (r: MousePos)
    requires
        phy_mouse_pos.bounded(),
    ensures
        rotated(screen_width as int, screen_height as int, realtime_orientation, phy_mouse_pos, r),
        r.x.den > 0 && r.y.den > 0,
{
    let mut p = phy_mouse_pos;
    let x = phy_mouse_pos.x;
    let y = phy_mouse_pos.y;
    if realtime_orientation == 1 {
        assert(0 <= screen_width as int * x.den <= 0x1_0000_0000 * 0x1_0000_0000) by (nonlinear_arith)
            requires
                0 <= screen_width < 0x1_0000_0000,
                0 < x.den <= 0x1_0000_0000,
        ;
        p.x = y;
        p.y = Coord { num: screen_width as i128 * x.den - x.num, den: x.den };
    } else if realtime_orientation == 3 {
        assert(0 <= screen_height as int * y.den <= 0x1_0000_0000 * 0x1_0000_0000) by (nonlinear_arith)
            requires
                0 <= screen_height < 0x1_0000_0000,
                0 < y.den <= 0x1_0000_0000,
        ;
        p.y = x;
        p.x = Coord { num: screen_height as i128 * y.den - y.num, den: y.den };
    }
    p
}


/// Why a device cannot be calibrated.
#[derive(Clone, Copy, Debug, PartialEq, Eq, Structural)]
pub enum CalibrationError {
    /// The device reports no positive maximum for an axis.
    BadAxisRange { phy_max_x: i32, phy_max_y: i32 },
}

/// Sensor resolution and portrait screen size, fixed after start-up.
///
/// The scale on an axis is `phy_max / screen`, so a sensor value `v` lies at
/// `v * screen / phy_max` in screen units.
#[derive(Clone, Copy, Debug, PartialEq, Eq, Structural)]
pub struct Calibration {
    pub phy_max_x: i32,
    pub phy_max_y: i32,
    pub screen_width: u32,
    pub screen_height: u32,
}

/// `c` is the sensor value `v` scaled by `phy_max / screen`.
pub open spec fn scaled(v: int, screen: int, phy_max: int, c: Coord) -> bool {
    c.num == v * screen && c.den == phy_max
}

impl Calibration {
    pub open spec fn wf(self) -> bool {
        self.phy_max_x > 0 && self.phy_max_y > 0 && self.screen_width <= self.screen_height
    }

    /// Builds the calibration from the device's axis maxima and the display size.
    /// A landscape display size is swapped to portrait first.
    pub fn calibrate(phy_max_x: i32, phy_max_y: i32, width: u32, height: u32) -> (r: Result<
        Calibration,
        CalibrationError,
    >)
        ensures
            match r {
                Ok(c) => {
                    &&& phy_max_x > 0 && phy_max_y > 0
                    &&& c.wf()
                    &&& c.phy_max_x == phy_max_x && c.phy_max_y == phy_max_y
                    &&& c.screen_width == if height < width { height } else { width }
                    &&& c.screen_height == if height < width { width } else { height }
                },
                Err(e) => {
                    &&& !(phy_max_x > 0 && phy_max_y > 0)
                    &&& e == CalibrationError::BadAxisRange { phy_max_x, phy_max_y }
                },
            },
    {
        if phy_max_x <= 0 || phy_max_y <= 0 {
            return Err(CalibrationError::BadAxisRange { phy_max_x, phy_max_y });
        }
        let (screen_width, screen_height) = if height < width {
            (height, width)
        } else {
            (width, height)
        };
        Ok(Calibration { phy_max_x, phy_max_y, screen_width, screen_height })
    }

    /// A sensor X value in screen units.
    pub fn scale_x(&self, value: i32) -> (r: Coord)
        requires
            self.wf(),
        ensures
            scaled(value as int, self.screen_width as int, self.phy_max_x as int, r),
            r.bounded(),
    {
        proof {
            lemma_scaled_bounded(value as int, self.screen_width as int);
        }
        Coord { num: value as i128 * self.screen_width as i128, den: self.phy_max_x as i128 }
    }

    /// A sensor Y value in screen units.
    pub fn scale_y(&self, value: i32) -> (r: Coord)
        requires
            self.wf(),
        ensures
            scaled(value as int, self.screen_height as int, self.phy_max_y as int, r),
            r.bounded(),
    {
        proof {
            lemma_scaled_bounded(value as int, self.screen_height as int);
        }
        Coord { num: value as i128 * self.screen_height as i128, den: self.phy_max_y as i128 }
    }

    /// The process-wide display scale, `scale_x / 10`, as a fraction
    /// `(numerator, denominator)`.
    pub fn scale_factor_ratio(&self) -> (r: (u64, u64))
        requires
            self.wf(),
        ensures
            r.0 == self.phy_max_x,
            r.1 == 10 * self.screen_width,
    {
        (self.phy_max_x as u64, 10 * self.screen_width as u64)
    }
}

proof fn lemma_scaled_bounded(v: int, screen: int)
    requires
        -0x8000_0000 <= v < 0x8000_0000,
        0 <= screen < 0x1_0000_0000,
    ensures
        -NUM_BOUND <= v * screen <= NUM_BOUND,
{
    assert(-0x8000_0000 * 0x1_0000_0000 <= v * screen <= 0x8000_0000 * 0x1_0000_0000)
        by (nonlinear_arith)
        requires
            -0x8000_0000 <= v < 0x8000_0000,
            0 <= screen < 0x1_0000_0000,
    ;
}

/// A finger whose sensor position lies inside the calibrated range lands inside
/// `[0, max(width, height)]` on both axes after a quarter or three-quarter turn,
/// and stays where it is under the two other orientations.
pub proof fn lemma_rotation_stays_on_screen(
    cal: Calibration,
    raw_x: int,
    raw_y: int,
    orientation: u8,
    f: FingerState,
    r: FingerState,
)
    requires
        cal.wf(),
        0 <= raw_x <= cal.phy_max_x,
        0 <= raw_y <= cal.phy_max_y,
        orientation <= 3,
        scaled(raw_x, cal.screen_width as int, cal.phy_max_x as int, f.x),
        scaled(raw_y, cal.screen_height as int, cal.phy_max_y as int, f.y),
        rotated(cal.screen_width as int, cal.screen_height as int, orientation, f, r),
    ensures
        (orientation == 1 || orientation == 3) ==> {
            let m = if cal.screen_width < cal.screen_height {
                cal.screen_height as int
            } else {
                cal.screen_width as int
            };
            r.x.within(m) && r.y.within(m)
        },
        (orientation == 0 || orientation == 2) ==> r == f,
{
    let w = cal.screen_width as int;
    let h = cal.screen_height as int;
    let px = cal.phy_max_x as int;
    let py = cal.phy_max_y as int;
    assert(0 <= raw_x * w <= w * px && 0 <= raw_y * h <= h * py && w * px <= h * px) by (nonlinear_arith)
        requires
            0 <= raw_x <= px,
            0 <= raw_y <= py,
            0 <= w <= h,
            0 < px,
            0 < py,
    ;
}

/// On a square screen a quarter turn followed by a three-quarter turn gives
/// back the starting position, and the two identity orientations change
/// nothing however often they are applied.
pub proof fn lemma_rotation_round_trip(
    w: int,
    h: int,
    first: u8,
    second: u8,
    f: FingerState,
    g: FingerState,
    k: FingerState,
)
    requires
        rotated(w, h, first, f, g),
        rotated(w, h, second, g, k),
        (first == 0 || first == 2) && (second == 0 || second == 2) || (first == 1 && second == 3
            && w == h),
    ensures
        k == f,
{
}

} // verus!
