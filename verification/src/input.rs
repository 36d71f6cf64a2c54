//! Position input: decoding raw sensor samples and mapping accelerometer
//! tilt onto the logical coordinate range, plus the game shell that
//! consumes the samples. Bus traffic itself lives outside the library; the
//! functions here work on the bytes and values a poll hands back.

use crate::blit::Coord;
use crate::blit::draw_image_transformed_rust;
use crate::blit::image_target_pixel;
use crate::fb::FrameBuffer;
use crate::transform::ImageTransform;
use crate::transform::identity_transform;
use vstd::prelude::*;

verus! {

/// One accelerometer sample in raw sensor units.
#[derive(Copy, Clone, Debug, PartialEq, Eq, Structural)]
pub struct AccelData {
    pub accel_x: i32,
    pub accel_y: i32,
    pub accel_z: i32,
}

/// A full sensor sample: acceleration, temperature and rotation rate.
#[derive(Copy, Clone, Debug, PartialEq, Eq, Structural)]
pub struct Mpu6050Data {
    pub accel_x: i32,
    pub accel_y: i32,
    pub accel_z: i32,
    pub temp: i32,
    pub gyro_x: i32,
    pub gyro_y: i32,
    pub gyro_z: i32,
}

/// The 16-bit big-endian value of two register bytes.
pub open spec fn be16(hi: u8, lo: u8) -> int {
    hi * 256 + lo
}

/// Decodes the fourteen data-register bytes of a full sensor read, each
/// pair big-endian: acceleration, temperature, then rotation rate.
pub fn read_data(buffer: &[u8]) -> (d: Mpu6050Data)
    requires
        buffer@.len() == 14,
    ensures
        d.accel_x == be16(buffer@[0], buffer@[1]),
        d.accel_y == be16(buffer@[2], buffer@[3]),
        d.accel_z == be16(buffer@[4], buffer@[5]),
        d.temp == be16(buffer@[6], buffer@[7]),
        d.gyro_x == be16(buffer@[8], buffer@[9]),
        d.gyro_y == be16(buffer@[10], buffer@[11]),
        d.gyro_z == be16(buffer@[12], buffer@[13]),
{
    Mpu6050Data {
        accel_x: buffer[0] as i32 * 256 + buffer[1] as i32,
        accel_y: buffer[2] as i32 * 256 + buffer[3] as i32,
        accel_z: buffer[4] as i32 * 256 + buffer[5] as i32,
        temp: buffer[6] as i32 * 256 + buffer[7] as i32,
        gyro_x: buffer[8] as i32 * 256 + buffer[9] as i32,
        gyro_y: buffer[10] as i32 * 256 + buffer[11] as i32,
        gyro_z: buffer[12] as i32 * 256 + buffer[13] as i32,
    }
}

/// Decodes the six accelerometer register bytes, each pair big-endian.
pub fn read_accel_data(buffer: &[u8]) -> (d: AccelData)
    requires
        buffer@.len() == 6,
    ensures
        d.accel_x == be16(buffer@[0], buffer@[1]),
        d.accel_y == be16(buffer@[2], buffer@[3]),
        d.accel_z == be16(buffer@[4], buffer@[5]),
{
    AccelData {
        accel_x: buffer[0] as i32 * 256 + buffer[1] as i32,
        accel_y: buffer[2] as i32 * 256 + buffer[3] as i32,
        accel_z: buffer[4] as i32 * 256 + buffer[5] as i32,
    }
}

/// Whether a sample counts as a deliberate tilt: the magnitude of its
/// vertical-axis reading exceeds the threshold.
pub open spec fn tilt_detected(ay: int, threshold: int) -> bool {
    (if ay >= 0 {
        ay
    } else {
        -ay
    }) > threshold
}

/// The logical y coordinate a vertical-axis reading maps to: a positive
/// tilt scales into the upper part of `[y_min, y_max]` from `y_min` down, a
/// non-positive one into the lower part from `y_max` up, and the result is
/// clamped into the range.
pub open spec fn mapped_y(ay: int, y_min: int, y_max: int) -> int {
    let range = y_max - y_min;
    let normalized = if ay > 0 {
        let scaled = ay * range / 32767;
        y_min + (if scaled <= range {
            scaled
        } else {
            range
        })
    } else {
        let scaled = (-ay) * range / 32767;
        y_max - (if scaled <= range {
            scaled
        } else {
            range
        })
    };
    if normalized <= y_min {
        y_min
    } else if normalized >= y_max {
        y_max
    } else {
        normalized
    }
}

/// Maps an accelerometer sample to a logical y coordinate in
/// `[y_min, y_max]` and reports whether the tilt passed the threshold.
pub fn accel_to_game_coords(
    accel_data: &AccelData,
    y_min: Coord,
    y_max: Coord,
    tilt_threshold: i32,
) -> (r: (Coord, bool))
    requires
        y_min <= y_max,
        y_max - y_min <= 0x7FFF,
        -0x8000 <= accel_data.accel_y <= 0xFFFF,
    ensures
        r.1 == tilt_detected(accel_data.accel_y as int, tilt_threshold as int),
        r.0 == mapped_y(accel_data.accel_y as int, y_min as int, y_max as int),
        y_min <= r.0 <= y_max,
{
    let ay: i32 = accel_data.accel_y;
    let magnitude: i32 = if ay >= 0 {
        ay
    } else {
        -ay
    };
    let is_tilted: bool = magnitude > tilt_threshold;
    let range: i32 = y_max - y_min;
    let normalized: i32 = if ay > 0 {
        proof {
            assert(0 <= ay * range <= 0xFFFF * 0x7FFF) by (nonlinear_arith)
                requires
                    0 < ay <= 0xFFFF && 0 <= range <= 0x7FFF,
            ;
        }
        let scaled: i32 = ay * range / 32767;
        y_min + (if scaled <= range {
            scaled
        } else {
            range
        })
    } else {
        proof {
            assert(0 <= (-ay) * range <= 0x8000 * 0x7FFF) by (nonlinear_arith)
                requires
                    0 <= -ay <= 0x8000 && 0 <= range <= 0x7FFF,
            ;
        }
        let scaled: i32 = (-ay) * range / 32767;
        y_max - (if scaled <= range {
            scaled
        } else {
            range
        })
    };
    let clamped: i32 = if normalized <= y_min {
        y_min
    } else if normalized >= y_max {
        y_max
    } else {
        normalized
    };
    (clamped, is_tilted)
}

/// Phases of the game shell around the compositor.
#[derive(Copy, Clone, Debug, PartialEq, Eq, Structural)]
pub enum GameState {
    Start,
    Running,
    End,
    Halt,
}

/// A position source the game polls: some sensor that yields a logical
/// coordinate sample and whether it counts as a tap.
pub trait InputDevice {
    type Error;

    /// Brings the device up.
    fn init(&mut self) -> Result<(), Self::Error>;

    /// Optional diagnostic hook; does nothing by default.
    fn log_data(&mut self) {
    }

    /// One poll: a logical y coordinate already inside `[y_min, y_max]`
    /// and whether a tap was seen.
    fn is_tap(&mut self, y_min: Coord, y_max: Coord) -> Result<(Coord, bool), Self::Error>;
}

/// The game shell: its phase, score and the input device it polls.
pub struct Game<T: InputDevice> {
    pub state: GameState,
    pub score: u32,
    pub countdown_start_time: u32,
    pub input_device: T,
}

impl<T: InputDevice> Game<T> {
    /// Brings the input device up and starts a fresh game: score zero, in
    /// the start phase. A device that fails to come up fails the game.
    pub fn init(input_device: T) -> (r: Result<Game<T>, T::Error>)
        ensures
            r matches Ok(g) ==> g.state == GameState::Start && g.score == 0
                && g.countdown_start_time == 0,
    {
        let mut input_device = input_device;
        match input_device.init() {
            Ok(()) => Ok(
                Game { state: GameState::Start, score: 0, countdown_start_time: 0, input_device },
            ),
            Err(e) => Err(e),
        }
    }

    /// Draws the title image into the fixed start-screen rectangle of the
    /// logical space, untransformed.
    pub fn draw_start_screen(fb: &mut FrameBuffer, image_data: &[u16])
        requires
            old(fb).wf(),
        ensures
            final(fb).wf(),
            final(fb).width == old(fb).width,
            final(fb).height == old(fb).height,
            forall|i: int|
                0 <= i < final(fb).pixels@.len() ==> final(fb).pixels@[i] == image_target_pixel(
                    *old(fb),
                    40,
                    40,
                    160,
                    80,
                    image_data@,
                    identity_transform(),
                    i,
                ),
    {
        draw_image_transformed_rust(fb, 40, 160, 40, 80, image_data, ImageTransform::identity());
    }
}

} // verus!
