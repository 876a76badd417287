//! Plain-data models of the camera frames the viewer works on: a depth
//! frame of 16-bit millimeter values, an infrared frame of 8-bit
//! intensities, and a color frame of interleaved BGR bytes, each stored
//! row-major.
use vstd::prelude::*;

verus! {

/// A depth frame: one `u16` millimeter reading per pixel, row-major.
pub struct DepthFrame {
    pub width: usize,
    pub height: usize,
    pub data: Vec<u16>,
}

impl DepthFrame {
    /// The pixel buffer holds exactly one reading per pixel.
    pub open spec fn wf(&self) -> bool {
        self.data@.len() == self.width * self.height
    }

    /// Wraps a pixel buffer, rejecting one whose length does not match the
    /// dimensions.
    pub fn new(width: usize, height: usize, data: Vec<u16>) -> (r: Option<DepthFrame>)
        ensures
            (r is Some) == (data@.len() == width * height),
            r matches Some(f) ==> f.wf() && f.width == width && f.height == height && f.data@
                == data@,
    {
        let len = data.len();
        match width.checked_mul(height) {
            Some(n) => {
                if len == n {
                    Some(DepthFrame { width, height, data })
                } else {
                    None
                }
            },
            None => None,
        }
    }

    /// The reading at column `x` of row `y`.
    pub fn get(&self, x: usize, y: usize) -> (r: u16)
        requires
            self.wf(),
            x < self.width,
            y < self.height,
        ensures
            r == self.data@[y * self.width + x],
    {
        proof {
            assert(self.data.len() == self.data@.len());
            assert(y * self.width + x < self.width * self.height) by (nonlinear_arith)
                requires
                    x < self.width,
                    y < self.height,
            ;
        }
        self.data[y * self.width + x]
    }
}

/// An infrared frame: one 8-bit intensity per pixel, row-major.
pub struct InfraredFrame {
    pub width: usize,
    pub height: usize,
    pub data: Vec<u8>,
}

impl InfraredFrame {
    /// The pixel buffer holds exactly one intensity per pixel.
    pub open spec fn wf(&self) -> bool {
        self.data@.len() == self.width * self.height
    }

    /// Wraps a pixel buffer, rejecting one whose length does not match the
    /// dimensions.
    pub fn new(width: usize, height: usize, data: Vec<u8>) -> (r: Option<InfraredFrame>)
        ensures
            (r is Some) == (data@.len() == width * height),
            r matches Some(f) ==> f.wf() && f.width == width && f.height == height && f.data@
                == data@,
    {
        let len = data.len();
        match width.checked_mul(height) {
            Some(n) => {
                if len == n {
                    Some(InfraredFrame { width, height, data })
                } else {
                    None
                }
            },
            None => None,
        }
    }

    /// The intensity at column `x` of row `y`.
    pub fn get(&self, x: usize, y: usize) -> (r: u8)
        requires
            self.wf(),
            x < self.width,
            y < self.height,
        ensures
            r == self.data@[y * self.width + x],
    {
        proof {
            assert(self.data.len() == self.data@.len());
            assert(y * self.width + x < self.width * self.height) by (nonlinear_arith)
                requires
                    x < self.width,
                    y < self.height,
            ;
        }
        self.data[y * self.width + x]
    }
}

/// A color frame: three bytes per pixel in B, G, R order, row-major.
pub struct ColorFrame {
    pub width: usize,
    pub height: usize,
    pub data: Vec<u8>,
}

impl ColorFrame {
    /// The pixel buffer holds exactly three bytes per pixel.
    pub open spec fn wf(&self) -> bool {
        self.data@.len() == 3 * (self.width * self.height)
    }

    /// Wraps a pixel buffer, rejecting one whose length does not match the
    /// dimensions.
    pub fn new(width: usize, height: usize, data: Vec<u8>) -> (r: Option<ColorFrame>)
        ensures
            (r is Some) == (data@.len() == 3 * (width * height)),
            r matches Some(f) ==> f.wf() && f.width == width && f.height == height && f.data@
                == data@,
    {
        let len = data.len();
        match width.checked_mul(height) {
            Some(n) => {
                match n.checked_mul(3) {
                    Some(m) => {
                        if len == m {
                            Some(ColorFrame { width, height, data })
                        } else {
                            None
                        }
                    },
                    None => None,
                }
            },
            None => None,
        }
    }

    /// The blue, green and red bytes at column `x` of row `y`.
    pub fn get(&self, x: usize, y: usize) -> (r: (u8, u8, u8))
        requires
            self.wf(),
            x < self.width,
            y < self.height,
        ensures
            r.0 == self.data@[3 * (y * self.width + x)],
            r.1 == self.data@[3 * (y * self.width + x) + 1],
            r.2 == self.data@[3 * (y * self.width + x) + 2],
    {
        proof {
            assert(self.data.len() == self.data@.len());
            assert(3 * (y * self.width + x) + 2 < 3 * (self.width * self.height))
                by (nonlinear_arith)
                requires
                    x < self.width,
                    y < self.height,
            ;
        }
        let base = 3 * (y * self.width + x);
        (self.data[base], self.data[base + 1], self.data[base + 2])
    }
}

} // verus!
