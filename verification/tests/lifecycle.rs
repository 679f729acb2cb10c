//! The terminal session lifecycle, as far as a test harness without a
//! real terminal can drive it.

use plerustax::cell::Pixel;
use plerustax::session::Terminal;

#[test]
fn acquire_draw_release_or_fail_cleanly() {
    // Acquisition needs a real terminal on standard input/output; in a
    // harness it may be refused. Either way nothing panics, and a
    // successful acquisition can draw and must release exactly once.
    match Terminal::new() {
        Ok(mut t) => {
            let _ = t.draw(|mut f| {
                f.write(Pixel::new('x'));
                f
            });
            assert!(t.release());
            // A second release performs no teardown.
            assert!(!t.release());
        }
        Err(_) => {}
    }
}
