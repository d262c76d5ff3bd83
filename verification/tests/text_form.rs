use rocket_uuid::Uuid;

fn next(state: &mut u64) -> u64 {
    *state = state.wrapping_mul(6364136223846793005).wrapping_add(1442695040888963407);
    *state >> 33
}

fn some_bytes(state: &mut u64) -> [u8; 16] {
    let mut bytes = [0u8; 16];
    for b in bytes.iter_mut() {
        *b = (next(state) % 256) as u8;
    }
    bytes
}

fn digit(v: u8, upper: bool) -> char {
    let lower = b"0123456789abcdef";
    let c = lower[v as usize] as char;
    if upper {
        c.to_ascii_uppercase()
    } else {
        c
    }
}

fn hyphenated(bytes: &[u8; 16], state: &mut u64, mixed: bool) -> String {
    let mut text = String::new();
    for (k, b) in bytes.iter().enumerate() {
        if k == 4 || k == 6 || k == 8 || k == 10 {
            text.push('-');
        }
        text.push(digit(b / 16, mixed && next(state) % 2 == 0));
        text.push(digit(b % 16, mixed && next(state) % 2 == 0));
    }
    text
}

#[test]
fn rendering_spells_each_byte_high_half_first() {
    let mut state = 7;
    for _ in 0..200 {
        let bytes = some_bytes(&mut state);
        let id = Uuid::from_outcome(Ok(bytes)).unwrap();
        assert_eq!(id.to_string(), hyphenated(&bytes, &mut state, false));
    }
}

#[test]
fn parsing_reads_the_bytes_that_the_digits_spell() {
    let mut state = 11;
    for _ in 0..200 {
        let bytes = some_bytes(&mut state);
        let text = hyphenated(&bytes, &mut state, true);
        assert_eq!(Uuid::from_str(&text).unwrap().into_inner(), bytes);
        assert_eq!(Uuid::from_param(&text).unwrap().into_inner(), bytes);
        assert_eq!(Uuid::from_form_value(&text).unwrap().into_inner(), bytes);
    }
}

#[test]
fn parse_then_render_gives_the_text_in_lower_case() {
    let mut state = 13;
    for _ in 0..200 {
        let bytes = some_bytes(&mut state);
        let text = hyphenated(&bytes, &mut state, true);
        let id = Uuid::from_str(&text).unwrap();
        assert_eq!(id.to_string(), text.to_ascii_lowercase());
        assert_eq!(Uuid::from_str(&id.to_string()), Ok(id));
    }
}

#[test]
fn render_then_parse_gives_the_value_back() {
    let mut state = 17;
    for _ in 0..200 {
        let bytes = some_bytes(&mut state);
        let id = Uuid::from_outcome(Ok(bytes)).unwrap();
        assert_eq!(Uuid::from_str(&id.to_string()), Ok(id));
    }
}

#[test]
fn rendering_of_fixed_values() {
    let zero = Uuid::from_outcome(Ok([0u8; 16])).unwrap();
    assert_eq!(zero.to_string(), "00000000-0000-0000-0000-000000000000");
    let ones = Uuid::from_outcome(Ok([0xffu8; 16])).unwrap();
    assert_eq!(ones.to_string(), "ffffffff-ffff-ffff-ffff-ffffffffffff");
    let steps = Uuid::from_outcome(Ok([
        0x0f, 0x1e, 0x2d, 0x3c, 0x4b, 0x5a, 0x69, 0x78, 0x87, 0x96, 0xa5, 0xb4, 0xc3, 0xd2, 0xe1,
        0xf0,
    ]))
    .unwrap();
    assert_eq!(steps.to_string(), "0f1e2d3c-4b5a-6978-8796-a5b4c3d2e1f0");
}

#[test]
fn order_follows_the_bytes_of_any_two_values() {
    let mut state = 19;
    for _ in 0..200 {
        let mut a = some_bytes(&mut state);
        let b = some_bytes(&mut state);
        if next(&mut state) % 2 == 0 {
            let keep = (next(&mut state) % 17) as usize;
            a[..keep].copy_from_slice(&b[..keep]);
        }
        let x = Uuid::from_outcome(Ok(a)).unwrap();
        let y = Uuid::from_outcome(Ok(b)).unwrap();
        assert_eq!(x.partial_cmp(&y), Some(a.cmp(&b)));
        assert_eq!(x.cmp(&y), a.cmp(&b));
        assert_eq!(x == y, a == b);
        assert_eq!(x == b, a == b);
        let p = uuid::Uuid::from_bytes(a);
        let q = uuid::Uuid::from_bytes(b);
        assert_eq!(x.partial_cmp(&y), p.partial_cmp(&q));
    }
}
