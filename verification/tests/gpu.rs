use chippy::emu::gpu::{index, Gpu};

#[test]
fn index_correct_location() {
    assert_eq!(index(0, 0), 0);
    assert_eq!(index(50, 0), 50);
    assert_eq!(index(0, 1), 64);
    assert_eq!(index(10, 10), 650);
    assert_eq!(index(20, 30), 1940);

    // Wrapping around the screen
    assert_eq!(index(96, 0), 32);
    assert_eq!(index(96, 96), 32);
}

#[test]
fn toggle_pixel() {
    let mut gpu = Gpu::new();
    assert!(gpu.memory.iter().all(|p| !p));

    assert_eq!(gpu.toggle(32, 23, true), false);
    assert_eq!(gpu.toggle(32, 23, true), true);
    assert_eq!(gpu.toggle(32, 23, true), false);
    assert_eq!(gpu.toggle(32, 23, true), true);

    assert_eq!(gpu.toggle(32, 23, false), false);
    assert_eq!(gpu.toggle(32, 23, true), false);
    assert_eq!(gpu.toggle(32, 23, false), true);
}
