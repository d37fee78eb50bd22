use evian::geometry::{isqrt, Vec2};
use evian::model::{arcade_to_tank, desaturate, Arcade};

#[test]
fn desaturate_scales_down() {
    assert_eq!(desaturate([3000, -4000, 1000], 2000), [1500, -2000, 500]);
}

#[test]
fn desaturate_leaves_small_values() {
    assert_eq!(desaturate([500, -1200, 800], 2000), [500, -1200, 800]);
    let empty: [i64; 0] = [];
    assert_eq!(desaturate(empty, 10), empty);
}

#[test]
fn arcade_mixing() {
    assert_eq!(arcade_to_tank(300, 100, 1000), [400, 200]);
    assert_eq!(arcade_to_tank(1000, 1000, 1000), [1000, 0]);
    assert_eq!(arcade_to_tank(800, -600, 1000), [142, 1000]);
}

#[test]
fn integer_square_root() {
    assert_eq!(isqrt(0), 0);
    assert_eq!(isqrt(24), 4);
    assert_eq!(isqrt(25), 5);
    assert_eq!(isqrt(u64::MAX), 4_294_967_295);
    assert_eq!(Vec2::new(3, -4).length(), 5);
}

struct RecordingTank {
    commands: Vec<(i64, i64)>,
}

impl evian::model::DrivetrainModel for RecordingTank {
    type Error = ();
}

impl evian::model::Tank for RecordingTank {
    fn drive_tank(&mut self, left: i64, right: i64) -> Result<(), ()> {
        self.commands.push((left, right));
        Ok(())
    }
}

#[test]
fn tank_drives_arcade_at_full_power() {
    let mut tank = RecordingTank { commands: Vec::new() };
    assert_eq!(tank.drive_arcade(300, 100), Ok(()));
    assert_eq!(tank.drive_arcade(1500, 500), Ok(()));
    assert_eq!(tank.drive_arcade(0, 0), Ok(()));
    assert_eq!(tank.commands, vec![(400, 200), (1000, 500), (0, 0)]);
}
