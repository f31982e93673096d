use vetoriza::raster::{binarize, GrayRaster, BACKGROUND, FOREGROUND, MAX_PIXELS, THRESHOLD};

#[test]
fn threshold_constants() {
    assert_eq!(THRESHOLD, 128);
    assert_eq!(FOREGROUND, 255);
    assert_eq!(BACKGROUND, 0);
    assert_eq!(MAX_PIXELS, 2_147_483_647);
}

#[test]
fn new_accepts_a_full_grid() {
    let img = GrayRaster::new(3, 2, vec![1, 2, 3, 4, 5, 6]).unwrap();
    assert_eq!(img.width(), 3);
    assert_eq!(img.height(), 2);
    assert_eq!(img.pixels(), &vec![1, 2, 3, 4, 5, 6]);
}

#[test]
fn new_accepts_an_empty_grid() {
    assert!(GrayRaster::new(0, 0, Vec::new()).is_some());
    assert!(GrayRaster::new(0, 7, Vec::new()).is_some());
    assert!(GrayRaster::new(4_294_967_295, 0, Vec::new()).is_some());
}

#[test]
fn new_rejects_a_wrong_length() {
    assert!(GrayRaster::new(3, 2, vec![0; 5]).is_none());
    assert!(GrayRaster::new(3, 2, vec![0; 7]).is_none());
    assert!(GrayRaster::new(0, 0, vec![0]).is_none());
    assert!(GrayRaster::new(4_294_967_295, 4_294_967_295, vec![0; 1]).is_none());
}

#[test]
fn binarize_splits_at_the_threshold() {
    let img = GrayRaster::new(4, 2, vec![0, 1, 127, 128, 129, 200, 254, 255]).unwrap();
    let out = binarize(&img);
    assert_eq!(out.width(), 4);
    assert_eq!(out.height(), 2);
    assert_eq!(out.pixels(), &vec![0, 0, 0, 255, 255, 255, 255, 255]);
}

#[test]
fn binarize_classifies_every_intensity() {
    let pixels: Vec<u8> = (0..=255).collect();
    let img = GrayRaster::new(16, 16, pixels).unwrap();
    let out = binarize(&img);
    for (p, level) in out.pixels().iter().enumerate() {
        assert_eq!(*level, if p >= 128 { 255 } else { 0 });
    }
}

#[test]
fn binarize_is_idempotent() {
    let img = GrayRaster::new(3, 1, vec![5, 128, 250]).unwrap();
    let once = binarize(&img);
    let twice = binarize(&once);
    assert_eq!(once.pixels(), twice.pixels());
}

#[test]
fn binarize_keeps_an_empty_raster() {
    let img = GrayRaster::new(0, 3, Vec::new()).unwrap();
    let out = binarize(&img);
    assert_eq!((out.width(), out.height()), (0, 3));
    assert!(out.pixels().is_empty());
}
