use shaderbox::CAPACITY;
use shaderbox::Light;
use shaderbox::RawLight;
use shaderbox::pack::pack;
use shaderbox::pack::pack_bytes;

fn light(pos: [f32; 3], color: [f32; 3], brightness: f32) -> Light {
    Light {
        position: [pos[0].to_bits(), pos[1].to_bits(), pos[2].to_bits()],
        color: [color[0].to_bits(), color[1].to_bits(), color[2].to_bits()],
        brightness: brightness.to_bits(),
    }
}

fn le_bytes(words: &[u32]) -> Vec<u8> {
    let mut out = Vec::new();
    for w in words {
        out.push((w & 0xff) as u8);
        out.push(((w >> 8) & 0xff) as u8);
        out.push(((w >> 16) & 0xff) as u8);
        out.push(((w >> 24) & 0xff) as u8);
    }
    out
}

#[test]
fn totality_short_list() {
    let lights = vec![
        light([1.0, 2.0, 3.0], [0.5, 0.25, 0.125], 2.0),
        light([-1.0, 0.0, 9.5], [1.0, 1.0, 0.0], 0.0),
    ];
    let packed = pack(&lights);
    assert_eq!(packed.len(), CAPACITY);
    for i in 0..2 {
        assert_eq!(packed[i].enabled, 1);
        assert_eq!(packed[i].position, lights[i].position);
        assert_eq!(packed[i].color, lights[i].color);
        assert_eq!(packed[i].brightness, lights[i].brightness);
    }
    for i in 2..CAPACITY {
        assert_eq!(packed[i], RawLight::zero());
    }
}

#[test]
fn totality_empty_list() {
    let packed = pack(&Vec::new());
    assert_eq!(packed.len(), CAPACITY);
    for slot in &packed {
        assert_eq!(*slot, RawLight::zero());
    }
    let bytes = pack_bytes(&Vec::new());
    assert_eq!(bytes, vec![0u8; 32 * CAPACITY]);
}

#[test]
fn totality_full_list() {
    let lights: Vec<Light> = (0..CAPACITY)
        .map(|i| light([i as f32, 0.0, 0.0], [1.0, 1.0, 1.0], 1.0))
        .collect();
    let packed = pack(&lights);
    assert_eq!(packed.len(), CAPACITY);
    for i in 0..CAPACITY {
        assert_eq!(packed[i].enabled, 1);
        assert_eq!(packed[i].position, lights[i].position);
    }
}

#[test]
fn truncation_drops_excess_lights() {
    let long: Vec<Light> = (0..CAPACITY + 3)
        .map(|i| light([i as f32, 1.0, -2.0], [0.1, 0.2, 0.3], i as f32))
        .collect();
    let first_ten: Vec<Light> = long[..CAPACITY].to_vec();
    assert_eq!(pack(&long), pack(&first_ten));
    assert_eq!(pack_bytes(&long), pack_bytes(&first_ten));
    assert_eq!(pack(&long)[CAPACITY - 1].enabled, 1);
}

#[test]
fn determinism_byte_identical() {
    let lights = vec![
        light([4.0, 4.0, 0.0], [1.0, 1.0, 1.0], 5.0),
        light([0.0, -3.5, 2.25], [0.0, 0.5, 1.0], 7.5),
    ];
    let first = pack_bytes(&lights);
    let second = pack_bytes(&lights);
    assert_eq!(first, second);
}

#[test]
fn scenario_single_light_wire_image() {
    let lights = vec![light([4.0, 4.0, 0.0], [1.0, 1.0, 1.0], 5.0)];
    let bytes = pack_bytes(&lights);
    assert_eq!(bytes.len(), 32 * CAPACITY);

    let mut expected = le_bytes(&[
        4.0f32.to_bits(),
        4.0f32.to_bits(),
        0.0f32.to_bits(),
        1, // enabled
        1.0f32.to_bits(),
        1.0f32.to_bits(),
        1.0f32.to_bits(),
        5.0f32.to_bits(),
    ]);
    expected.extend(std::iter::repeat(0u8).take(32 * (CAPACITY - 1)));
    assert_eq!(bytes, expected);

    let packed = pack(&lights);
    assert_eq!(packed[0].enabled, 1);
    assert_eq!(packed[0].position, [0x40800000, 0x40800000, 0]);
    assert_eq!(packed[0].color, [0x3f800000, 0x3f800000, 0x3f800000]);
    assert_eq!(packed[0].brightness, 0x40a00000);
    for i in 1..CAPACITY {
        assert_eq!(packed[i], RawLight::zero());
    }
}

#[test]
fn record_layout_is_32_bytes_with_16_byte_groups() {
    let lights = vec![
        light([1.0, 2.0, 3.0], [0.5, 0.5, 0.5], 8.0),
        light([6.0, 7.0, 8.0], [0.25, 0.5, 0.75], 9.0),
    ];
    let bytes = pack_bytes(&lights);
    // Second record starts at byte 32; its color group at byte 32 + 16.
    assert_eq!(&bytes[32..36], &le_bytes(&[6.0f32.to_bits()])[..]);
    assert_eq!(&bytes[44..48], &le_bytes(&[1u32])[..]);
    assert_eq!(&bytes[48..52], &le_bytes(&[0.25f32.to_bits()])[..]);
    assert_eq!(&bytes[60..64], &le_bytes(&[9.0f32.to_bits()])[..]);
}
