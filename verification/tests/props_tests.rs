//! Scenarios for the transformation chain: exact geometry after each kind of
//! transformation, and in-order composition of a whole chain.

use video_compositor::props::{TransformationUniform, Vec2d, VideoPlacement, VideoProperties};
use video_compositor::video::InputVideo;

fn props(res: (u32, u32), size: (u32, u32)) -> VideoProperties {
    VideoProperties {
        resolution: Vec2d { x: res.0, y: res.1 },
        placement: VideoPlacement {
            position: Vec2d { x: 8, y: 4 },
            size: Vec2d { x: size.0, y: size.1 },
            z: 250,
        },
    }
}

#[test]
fn cropping_scales_resolution_and_size() {
    let t = TransformationUniform::Cropping { width_scale: 500, height_scale: 250 };
    let p = t.update_video_properties(props((800, 600), (400, 300)));
    assert_eq!(p.resolution, Vec2d { x: 400, y: 150 });
    assert_eq!(p.placement.size, Vec2d { x: 200, y: 75 });
    // position and depth pass through
    assert_eq!(p.placement.position, Vec2d { x: 8, y: 4 });
    assert_eq!(p.placement.z, 250);
}

#[test]
fn cropping_rounds_down() {
    let t = TransformationUniform::Cropping { width_scale: 333, height_scale: 1000 };
    let p = t.update_video_properties(props((101, 50), (101, 50)));
    // 101 * 333 / 1000 = 33633 / 1000, rounded down
    assert_eq!(p.resolution.x, 33);
    assert_eq!(p.resolution.y, 50);
}

#[test]
fn corners_rounding_keeps_geometry() {
    let t = TransformationUniform::CornersRounding { border_radius: 16 };
    let p0 = props((800, 600), (400, 300));
    let p = t.update_video_properties(p0);
    assert_eq!(p, p0);
}

#[test]
fn chain_applies_in_declaration_order() {
    let chain = vec![
        TransformationUniform::Cropping { width_scale: 500, height_scale: 500 },
        TransformationUniform::CornersRounding { border_radius: 8 },
        TransformationUniform::Cropping { width_scale: 600, height_scale: 1000 },
    ];
    let p = InputVideo::<u32>::update_texture_transformations(
        props((1000, 500), (1000, 500)),
        &chain,
    );
    // 1000 -> 500 -> 500 -> 300; 500 -> 250 -> 250 -> 250
    assert_eq!(p.resolution, Vec2d { x: 300, y: 250 });
    assert_eq!(p.placement.size, Vec2d { x: 300, y: 250 });
}

#[test]
fn empty_chain_is_identity() {
    let p0 = props((640, 480), (320, 240));
    let p = InputVideo::<u32>::update_texture_transformations(p0, &vec![]);
    assert_eq!(p, p0);
}

#[test]
fn video_reports_transformed_properties() {
    let chain = vec![TransformationUniform::Cropping { width_scale: 500, height_scale: 500 }];
    let mut v: InputVideo<u32> = InputVideo::new(props((640, 480), (640, 480)), chain);
    let p = v.transformed_properties();
    assert_eq!(p.resolution, Vec2d { x: 320, y: 240 });
    assert_eq!(p.placement.size, Vec2d { x: 320, y: 240 });
    // the raw properties are kept unscaled
    assert_eq!(v.properties().resolution, Vec2d { x: 640, y: 480 });

    // replacing the chain changes the layout from the next query on
    v.update_properties(props((640, 480), (640, 480)), Some(vec![]));
    let p2 = v.transformed_properties();
    assert_eq!(p2.resolution, Vec2d { x: 640, y: 480 });

    // updating properties without a new chain keeps the old chain
    let mut w: InputVideo<u32> = InputVideo::new(
        props((640, 480), (640, 480)),
        vec![TransformationUniform::Cropping { width_scale: 250, height_scale: 250 }],
    );
    w.update_properties(props((800, 400), (800, 400)), None);
    let p3 = w.transformed_properties();
    assert_eq!(p3.resolution, Vec2d { x: 200, y: 100 });
}
