use secure_notes::coord::TileCoord;
use secure_notes::decimal::{push_decimal, push_decimal_nat};
use secure_notes::loader::TileLoader;
use std::collections::HashSet;

#[test]
fn decimal_of_zero_and_single_digits() {
    for n in 0u64..10 {
        let mut out = String::new();
        push_decimal_nat(&mut out, n);
        assert_eq!(out, format!("{}", n));
    }
}

#[test]
fn decimal_appends_to_what_is_there() {
    let mut out = String::from("z=");
    push_decimal(&mut out, 0);
    assert_eq!(out, "z=0");
    push_decimal(&mut out, -17);
    assert_eq!(out, "z=0-17");
}

#[test]
fn decimal_of_the_extremes() {
    let mut low = String::new();
    push_decimal(&mut low, i64::MIN);
    assert_eq!(low, "-9223372036854775808");
    let mut high = String::new();
    push_decimal(&mut high, i64::MAX);
    assert_eq!(high, "9223372036854775807");
    let mut top = String::new();
    push_decimal_nat(&mut top, u64::MAX);
    assert_eq!(top, "18446744073709551615");
}

#[test]
fn decimal_agrees_with_the_standard_rendering() {
    let samples: [i64; 9] = [1, 9, 10, 99, 100, 1000, -1, -10, 2147483647];
    for n in samples {
        let mut out = String::new();
        push_decimal(&mut out, n);
        assert_eq!(out, format!("{}", n));
    }
}

#[test]
fn tile_url_of_a_tile() {
    assert_eq!(
        TileLoader::get_tile_url(1, 1, 1),
        "https://tile.openstreetmap.org/1/1/1.png"
    );
    assert_eq!(
        TileLoader::get_tile_url(68, 41, 7),
        "https://tile.openstreetmap.org/7/68/41.png"
    );
}

#[test]
fn tile_url_puts_zoom_first() {
    let coord = TileCoord { x: 2, y: 3, z: 4 };
    assert_eq!(coord.url(), "https://tile.openstreetmap.org/4/2/3.png");
    assert_eq!(coord.url(), TileLoader::get_tile_url(2, 3, 4));
}

#[test]
fn tile_url_of_negative_and_extreme_coordinates() {
    assert_eq!(
        TileLoader::get_tile_url(-1, -20, 0),
        "https://tile.openstreetmap.org/0/-1/-20.png"
    );
    assert_eq!(
        TileLoader::get_tile_url(i32::MIN, i32::MAX, 255),
        "https://tile.openstreetmap.org/255/-2147483648/2147483647.png"
    );
}

#[test]
fn relative_path_and_directory() {
    let coord = TileCoord { x: 68, y: 41, z: 7 };
    assert_eq!(coord.relative_dir(), "7/68");
    assert_eq!(coord.relative_path(), "7/68/41.png");
    let odd = TileCoord { x: -3, y: 0, z: 18 };
    assert_eq!(odd.relative_dir(), "18/-3");
    assert_eq!(odd.relative_path(), "18/-3/0.png");
}

#[test]
fn url_is_the_server_followed_by_the_relative_path() {
    let coord = TileCoord { x: 130, y: 85, z: 8 };
    let expected = format!("https://tile.openstreetmap.org/{}", coord.relative_path());
    assert_eq!(coord.url(), expected);
}

#[test]
fn key_of_the_origin_and_of_the_corners() {
    let origin = TileCoord { x: 0, y: 0, z: 0 };
    assert_eq!(origin.key(), (0x8000_0000u128 << 32) | 0x8000_0000u128);
    let low = TileCoord { x: i32::MIN, y: i32::MIN, z: 0 };
    assert_eq!(low.key(), 0);
    let high = TileCoord { x: i32::MAX, y: i32::MAX, z: 255 };
    assert_eq!(high.key(), (255u128 << 64) | (0xFFFF_FFFFu128 << 32) | 0xFFFF_FFFFu128);
    let one = TileCoord { x: 1, y: 1, z: 1 };
    assert_eq!(one.key(), (1u128 << 64) | (0x8000_0001u128 << 32) | 0x8000_0001u128);
}

#[test]
fn keys_tell_coordinates_apart() {
    let mut seen: HashSet<u128> = HashSet::new();
    let values: [i32; 5] = [i32::MIN, -1, 0, 1, i32::MAX];
    let zooms: [u8; 3] = [0, 1, 255];
    for x in values {
        for y in values {
            for z in zooms {
                let coord = TileCoord { x, y, z };
                assert!(seen.insert(coord.key()));
            }
        }
    }
    assert_eq!(seen.len(), 75);
}

#[test]
fn coordinates_compare_by_value() {
    let a = TileCoord { x: 1, y: 2, z: 3 };
    let b = TileCoord { x: 1, y: 2, z: 3 };
    let c = TileCoord { x: 2, y: 1, z: 3 };
    assert_eq!(a, b);
    assert_ne!(a, c);
    let mut set: HashSet<TileCoord> = HashSet::new();
    set.insert(a);
    assert!(set.contains(&b));
    assert!(!set.contains(&c));
}

#[test]
fn paths_and_urls_tell_coordinates_apart() {
    let mut paths: HashSet<String> = HashSet::new();
    let mut urls: HashSet<String> = HashSet::new();
    let values: [i32; 7] = [i32::MIN, -11, -1, 0, 1, 11, i32::MAX];
    let zooms: [u8; 4] = [0, 1, 11, 255];
    for x in values {
        for y in values {
            for z in zooms {
                let coord = TileCoord { x, y, z };
                assert!(paths.insert(coord.relative_path()));
                assert!(urls.insert(coord.url()));
            }
        }
    }
    assert_eq!(paths.len(), 196);
    assert_ne!(
        TileCoord { x: 11, y: 1, z: 1 }.relative_path(),
        TileCoord { x: 1, y: 11, z: 1 }.relative_path()
    );
    assert_ne!(
        TileCoord { x: 1, y: 1, z: 11 }.relative_path(),
        TileCoord { x: 11, y: 1, z: 1 }.relative_path()
    );
}
