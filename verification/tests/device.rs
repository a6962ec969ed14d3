use terminal_size::{terminal_size_using_fd, Height, Width, WinSize};

fn report(rows: u16, cols: u16) -> WinSize {
    WinSize { ws_row: rows, ws_col: cols, ws_xpixel: 0, ws_ypixel: 0 }
}

#[test]
fn device_reports_24_rows_by_80_columns() {
    assert_eq!(terminal_size_using_fd(Some(report(24, 80))), Some((Width(80), Height(24))));
}

#[test]
fn device_puts_columns_first() {
    let size = terminal_size_using_fd(Some(report(43, 132)));
    assert_eq!(size, Some((Width(132), Height(43))));
    assert_ne!(size, Some((Width(43), Height(132))));
}

#[test]
fn device_without_terminal_is_absent() {
    assert_eq!(terminal_size_using_fd(None), None);
}

#[test]
fn device_keeps_a_report_of_zeros() {
    assert_eq!(terminal_size_using_fd(Some(report(0, 0))), Some((Width(0), Height(0))));
}

#[test]
fn device_keeps_a_single_zero() {
    assert_eq!(terminal_size_using_fd(Some(report(24, 0))), Some((Width(0), Height(24))));
    assert_eq!(terminal_size_using_fd(Some(report(0, 80))), Some((Width(80), Height(0))));
}

#[test]
fn device_ignores_the_pixel_fields() {
    let with_pixels = WinSize { ws_row: 24, ws_col: 80, ws_xpixel: 640, ws_ypixel: 384 };
    assert_eq!(terminal_size_using_fd(Some(with_pixels)), Some((Width(80), Height(24))));
    let only_pixels = WinSize { ws_row: 0, ws_col: 0, ws_xpixel: 640, ws_ypixel: 384 };
    assert_eq!(terminal_size_using_fd(Some(only_pixels)), Some((Width(0), Height(0))));
}

#[test]
fn device_keeps_the_largest_fields() {
    assert_eq!(
        terminal_size_using_fd(Some(report(65535, 65535))),
        Some((Width(65535), Height(65535)))
    );
    assert_eq!(terminal_size_using_fd(Some(report(1, 65535))), Some((Width(65535), Height(1))));
}

#[test]
fn device_never_gives_less_than_zero() {
    let mut rows: u32 = 0;
    while rows <= 65535 {
        match terminal_size_using_fd(Some(report(rows as u16, (65535 - rows) as u16))) {
            Some((Width(w), Height(h))) => {
                assert_eq!(h, rows as u16);
                assert_eq!(w, (65535 - rows) as u16);
            }
            None => panic!("a terminal always has a report"),
        }
        rows += 257;
    }
}

#[test]
fn width_and_height_carry_their_count() {
    let Width(w) = Width(80);
    let Height(h) = Height(24);
    assert_eq!(w, 80);
    assert_eq!(h, 24);
    assert_eq!(Width(80), Width(80));
    assert_ne!(Width(80), Width(81));
    assert!(Width(79) < Width(80));
    assert!(Height(25) > Height(24));
}
