use bare_metal::display::{
    blank_row, clear_screen, cpu_report, disable_cursor, image_pixel_writes, power_off_write,
    reboot_pulse, PixelWrite, PortWrite, BUFFER_HEIGHT, BUFFER_WIDTH, IMAGE_BYTES, IMAGE_WIDTH,
};

#[test]
fn blank_row_is_all_spaces() {
    let row = blank_row();
    assert_eq!(row.len(), BUFFER_WIDTH);
    assert!(row.iter().all(|&b| b == 32));
}

#[test]
fn clear_screen_blanks_the_full_height() {
    let rows = clear_screen();
    assert_eq!(rows.len(), BUFFER_HEIGHT);
    for row in rows {
        assert_eq!(row.len(), BUFFER_WIDTH);
        assert!(row.iter().all(|&b| b == 32));
    }
}

#[test]
fn cursor_is_parked_through_the_crt_register_pair() {
    let writes = disable_cursor();
    assert_eq!(
        writes,
        vec![
            PortWrite { port: 0x3D4, value: 0x0A, word_sized: false },
            PortWrite { port: 0x3D5, value: 0x20, word_sized: false },
        ]
    );
}

#[test]
fn reboot_pulse_targets_the_keyboard_controller() {
    assert_eq!(
        reboot_pulse(),
        PortWrite { port: 0x64, value: 0xFE, word_sized: false }
    );
}

#[test]
fn power_off_is_one_wide_write() {
    assert_eq!(
        power_off_write(),
        PortWrite { port: 0x604, value: 0x2000, word_sized: true }
    );
}

#[test]
fn blit_is_row_major_at_native_resolution() {
    let mut image = Vec::with_capacity(IMAGE_BYTES);
    for k in 0..IMAGE_BYTES {
        image.push((k % 251) as u8);
    }
    let writes = image_pixel_writes(&image);
    assert_eq!(writes.len(), IMAGE_BYTES);
    assert_eq!(writes[0], PixelWrite { x: 0, y: 0, color: 0 });
    assert_eq!(
        writes[IMAGE_WIDTH + 1],
        PixelWrite { x: 1, y: 1, color: ((IMAGE_WIDTH + 1) % 251) as u8 }
    );
    let last = IMAGE_BYTES - 1;
    assert_eq!(
        writes[last],
        PixelWrite { x: 319, y: 199, color: (last % 251) as u8 }
    );
}

#[test]
fn cpu_report_ends_with_the_dismiss_prompt() {
    let lines = cpu_report();
    assert_eq!(lines.len(), 2);
    assert_eq!(lines[1], "PRESS ENTER TO CONTINUE");
}
