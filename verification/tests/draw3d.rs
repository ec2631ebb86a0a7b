use scepter::draw3d::{pack_visibility, raster_3d_after, raster_3d_refresh, Raster3dCache, Raster3dRefresh};
use scepter::scene::visible_triangles;

fn settled() -> Raster3dCache {
    Raster3dCache {
        accel_dirty: false,
        geometry3d_dirty: false,
        visibility_dirty: false,
        line3d_dirty: false,
        combined_empty: false,
        static_empty: false,
        had_dynamics_last_frame: false,
    }
}

const NOTHING: Raster3dRefresh =
    Raster3dRefresh { geometry: false, static_geometry: false, visibility_only: false, bvh: false, lines: false };

#[test]
fn settled_cache_rebuilds_nothing() {
    assert_eq!(raster_3d_refresh(settled(), false), NOTHING);
}

#[test]
fn dynamics_rebuild_combined_geometry_for_one_more_frame() {
    let r = raster_3d_refresh(settled(), true);
    assert!(r.geometry && !r.static_geometry);
    let after = raster_3d_after(settled(), true);
    assert!(after.had_dynamics_last_frame);
    // The dynamics are gone, but last frame drew them: rebuild once more.
    assert!(raster_3d_refresh(after, false).geometry);
    let after2 = raster_3d_after(after, false);
    assert_eq!(raster_3d_refresh(after2, false), NOTHING);
}

#[test]
fn accel_dirty_rebuilds_everything_and_clears() {
    let mut c = settled();
    c.accel_dirty = true;
    c.visibility_dirty = true;
    c.line3d_dirty = true;
    let r = raster_3d_refresh(c, false);
    assert_eq!(r, Raster3dRefresh { geometry: true, static_geometry: true, visibility_only: false, bvh: true, lines: true });
    let a = raster_3d_after(c, false);
    assert!(!a.accel_dirty && !a.visibility_dirty && !a.line3d_dirty && !a.geometry3d_dirty);
}

#[test]
fn visibility_only_change() {
    let mut c = settled();
    c.visibility_dirty = true;
    let r = raster_3d_refresh(c, false);
    assert_eq!(r, Raster3dRefresh { visibility_only: true, ..NOTHING });
    assert!(!raster_3d_after(c, false).visibility_dirty);
}

#[test]
fn pack_visibility_words() {
    assert_eq!(pack_visibility(&vec![]), vec![0]);
    assert_eq!(pack_visibility(&vec![true, false, true]), vec![0b101]);
    let mut v = vec![false; 33];
    v[32] = true;
    v[0] = true;
    let w = pack_visibility(&v);
    assert_eq!(w, vec![1, 1]);
    // Reading the bits back selects the same triangles.
    assert_eq!(visible_triangles(3 * 33, &w, 0, 33), vec![0, 32]);
}
