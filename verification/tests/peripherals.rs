use mc_transpiler::interface::ControllerInfo;
use mc_transpiler::interface::NumberDisplaySettings;
use mc_transpiler::interface::Peripherals;
use mc_transpiler::interface::on_mem_read;
use mc_transpiler::interface::on_mem_write;

fn fresh() -> (Peripherals, Vec<u8>) {
    (Peripherals::new(), vec![0u8; 256])
}

fn store(p: &mut Peripherals, mem: &mut Vec<u8>, addr: usize, value: u8) {
    // A guest store commits to memory first; the write trap runs after.
    mem[addr] = value;
    on_mem_write(p, mem, addr);
}

#[test]
fn drawn_pixel_reads_back_set() {
    let (mut p, mut mem) = fresh();
    store(&mut p, &mut mem, 240, 5);
    store(&mut p, &mut mem, 241, 3);
    store(&mut p, &mut mem, 242, 1);
    on_mem_read(&mut p, &mut mem, 244);
    assert_eq!(mem[244], 1);

    // Any other, untouched coordinate reads back clear.
    store(&mut p, &mut mem, 240, 6);
    on_mem_read(&mut p, &mut mem, 244);
    assert_eq!(mem[244], 0);
    store(&mut p, &mut mem, 240, 5);
    store(&mut p, &mut mem, 241, 4);
    on_mem_read(&mut p, &mut mem, 244);
    assert_eq!(mem[244], 0);
}

#[test]
fn coordinates_are_masked_to_five_bits() {
    let (mut p, mut mem) = fresh();
    // 37 = 32 + 5 and 35 = 32 + 3 latch the same pixel as (5, 3).
    store(&mut p, &mut mem, 240, 37);
    store(&mut p, &mut mem, 241, 35);
    store(&mut p, &mut mem, 242, 1);
    store(&mut p, &mut mem, 240, 5);
    store(&mut p, &mut mem, 241, 3);
    on_mem_read(&mut p, &mut mem, 244);
    assert_eq!(mem[244], 1);
}

#[test]
fn screen_commit_is_double_buffered() {
    let (mut p, mut mem) = fresh();
    store(&mut p, &mut mem, 240, 5);
    store(&mut p, &mut mem, 241, 3);
    store(&mut p, &mut mem, 242, 1);
    // Drawing alone does not reach the visible screen.
    assert!(!p.screen_pixel(5, 3));
    assert!(!p.screen_dirty());

    store(&mut p, &mut mem, 245, 1);
    assert!(p.screen_pixel(5, 3));
    assert!(p.screen_dirty());
    for y in 0..32 {
        for x in 0..32 {
            assert_eq!(p.screen_pixel(x, y), x == 5 && y == 3);
        }
    }

    // Clearing the working buffer and committing again clears the
    // visible screen.
    p.clear_screen_dirty();
    store(&mut p, &mut mem, 246, 1);
    store(&mut p, &mut mem, 245, 1);
    assert!(p.screen_dirty());
    for y in 0..32 {
        for x in 0..32 {
            assert!(!p.screen_pixel(x, y));
        }
    }
}

#[test]
fn character_display_shows_the_staged_text() {
    let (mut p, mut mem) = fresh();
    store(&mut p, &mut mem, 247, b'H');
    store(&mut p, &mut mem, 247, b'i');
    assert!(!p.char_display_dirty());
    store(&mut p, &mut mem, 248, 1);
    assert_eq!(p.char_display_text(), "Hi");
    assert!(p.char_display_dirty());

    // Clearing the staging buffer and committing empties the display.
    p.clear_char_display_dirty();
    store(&mut p, &mut mem, 249, 1);
    store(&mut p, &mut mem, 248, 1);
    assert_eq!(p.char_display_text(), "");
    assert!(p.char_display_dirty());
}

#[test]
fn number_display_interpretation() {
    let (mut p, mut mem) = fresh();
    store(&mut p, &mut mem, 253, 1);
    store(&mut p, &mut mem, 250, 200);
    assert!(p.show_number_display());
    assert!(p.number_display_dirty());
    assert_eq!(p.number_display(), 200);
    assert_eq!(p.number_display_settings(), NumberDisplaySettings::Unsigned);

    // Switching to signed re-marks dirty without changing the byte.
    p.clear_number_display_dirty();
    store(&mut p, &mut mem, 252, 1);
    assert!(p.number_display_dirty());
    assert_eq!(p.number_display(), 200);
    assert_eq!(
        p.number_display_settings(),
        NumberDisplaySettings::TwosCompliment
    );

    // Hiding the display re-marks dirty too.
    p.clear_number_display_dirty();
    store(&mut p, &mut mem, 251, 1);
    assert!(!p.show_number_display());
    assert!(p.number_display_dirty());
}

#[test]
fn random_reads_never_fail_and_vary() {
    let (mut p, mut mem) = fresh();
    let mut draws = Vec::new();
    for _ in 0..16 {
        on_mem_read(&mut p, &mut mem, 254);
        draws.push(mem[254]);
    }
    assert_eq!(draws.len(), 16);
    // Sixteen identical bytes from the stream would be astronomically
    // unlikely.
    assert!(draws.iter().any(|&b| b != draws[0]));
}

#[test]
fn controller_byte_reads_back() {
    let (mut p, mut mem) = fresh();
    p.set_controller_info(ControllerInfo(0b1010_0001));
    on_mem_read(&mut p, &mut mem, 255);
    assert_eq!(mem[255], 0b1010_0001);
}

#[test]
fn plain_addresses_are_untouched() {
    let (mut p, mut mem) = fresh();
    store(&mut p, &mut mem, 10, 99);
    on_mem_read(&mut p, &mut mem, 10);
    assert_eq!(mem[10], 99);
    for (i, &b) in mem.iter().enumerate() {
        assert_eq!(b, if i == 10 { 99 } else { 0 });
    }
}
