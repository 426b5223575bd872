//! Screen orientation and device rotation values.
use vstd::prelude::*;

verus! {

/// Screen orientation of a device.
#[derive(Debug, Clone, Copy, PartialEq, Eq, Structural)]
pub enum Orientation {
    Landscape,
    Portrait,
}

impl Orientation {
    /// The name the server uses for this orientation.
    pub fn wire_name(&self) -> (r: &str)
        ensures
            r@ == (match *self {
                Orientation::Landscape => "LANDSCAPE"@,
                Orientation::Portrait => "PORTRAIT"@,
            }),
    {
        match self {
            Orientation::Landscape => "LANDSCAPE",
            Orientation::Portrait => "PORTRAIT",
        }
    }

    /// The name of this orientation, for display.
    pub fn to_string(&self) -> (r: String)
        ensures
            r@ == (match *self {
                Orientation::Landscape => "Landscape"@,
                Orientation::Portrait => "Portrait"@,
            }),
    {
        match self {
            Orientation::Landscape => String::from_str("Landscape"),
            Orientation::Portrait => String::from_str("Portrait"),
        }
    }
}

/// One of the three axes of a rotation.
#[derive(Debug, Clone, Copy, PartialEq, Eq, Structural)]
pub enum Axis {
    X,
    Y,
    Z,
}

impl Axis {
    /// The name of the axis: "x", "y" or "z".
    pub fn name(&self) -> (r: &str)
        ensures
            r@ == (match *self {
                Axis::X => "x"@,
                Axis::Y => "y"@,
                Axis::Z => "z"@,
            }),
    {
        match self {
            Axis::X => "x",
            Axis::Y => "y",
            Axis::Z => "z",
        }
    }
}

/// An angle of 360 degrees or more.
#[derive(Debug, Clone, Copy, PartialEq, Eq, Structural)]
pub struct InvalidAngle {
    pub axis: Axis,
    pub value: u16,
}

/// A rotation of the device around its three axes, each in degrees below 360.
#[derive(Debug, Clone, Copy, PartialEq, Eq)]
pub struct DeviceRotation {
    x: u16,
    y: u16,
    z: u16,
}

/// The first of the three angles that is 360 degrees or more, if any.
pub open spec fn first_invalid(x: u16, y: u16, z: u16) -> Option<InvalidAngle> {
    if x >= 360 {
        Some(InvalidAngle { axis: Axis::X, value: x })
    } else if y >= 360 {
        Some(InvalidAngle { axis: Axis::Y, value: y })
    } else if z >= 360 {
        Some(InvalidAngle { axis: Axis::Z, value: z })
    } else {
        None
    }
}

impl DeviceRotation {
    #[verifier::type_invariant]
    spec fn below_full_turn(self) -> bool {
        self.x < 360 && self.y < 360 && self.z < 360
    }

    /// The angles around x, y and z.
    pub closed spec fn angles(self) -> (u16, u16, u16) {
        (self.x, self.y, self.z)
    }

    /// The rotation with these angles, or the first of them that is not
    /// below 360 degrees.
    pub fn new(x: u16, y: u16, z: u16) -> (r: Result<DeviceRotation, InvalidAngle>)
        ensures
            match first_invalid(x, y, z) {
                Some(e) => r == Err::<DeviceRotation, InvalidAngle>(e),
                None => r matches Ok(d) && d.angles() == (x, y, z),
            },
    {
        if x >= 360 {
            return Err(InvalidAngle { axis: Axis::X, value: x });
        }
        if y >= 360 {
            return Err(InvalidAngle { axis: Axis::Y, value: y });
        }
        if z >= 360 {
            return Err(InvalidAngle { axis: Axis::Z, value: z });
        }
        Ok(DeviceRotation { x, y, z })
    }

    /// The angle around x.
    pub fn x(&self) -> (r: u16)
        ensures
            r == self.angles().0,
            r < 360,
    {
        proof {
            use_type_invariant(self);
        }
        self.x
    }

    /// The angle around y.
    pub fn y(&self) -> (r: u16)
        ensures
            r == self.angles().1,
            r < 360,
    {
        proof {
            use_type_invariant(self);
        }
        self.y
    }

    /// The angle around z.
    pub fn z(&self) -> (r: u16)
        ensures
            r == self.angles().2,
            r < 360,
    {
        proof {
            use_type_invariant(self);
        }
        self.z
    }
}

} // verus!
