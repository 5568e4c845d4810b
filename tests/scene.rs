use scene_engine::chunk::Chunk;
use scene_engine::geometry::{ChunkCoordinate, Point2, Point3};
use scene_engine::object::{
    ColoredSceneObject, ColoredVertex, ImageTexturedSceneObject, ObjectTypes, SceneObject,
    TextureImage, TgaTexturedSceneObject,
};
use scene_engine::renderer::RenderView;
use scene_engine::scene::{ChunkCorners, ChunkError, Scene};

fn zero_view() -> RenderView {
    RenderView::new(Point3::new(0, 0, 0), Point3::new(0, 0, 0), Point3::new(0, 0, 0))
}

fn colored(shader: i32) -> SceneObject {
    SceneObject::Colored(ColoredSceneObject::new(
        vec![ColoredVertex { coordinates: [0, 0, 0], color_rgba: 0xff0000ff }],
        vec![0, 0, 0],
        shader,
        Point3::new(1, 2, 3),
    ))
}

#[test]
fn chunk_test() {
    let mut scene = Scene::new(String::from("test"), zero_view());
    let test_chunk = Chunk::new(ChunkCoordinate::new(0, 0));
    scene.add_chunk(test_chunk, Point2::new(0, 0), Point2::new(150, 150));
    assert_eq!(scene.get_chunk(Point2::new(50, 50)).is_ok(), true);
    assert_eq!(scene.get_chunk(Point2::new(200, 200)).is_err(), true);
}

#[test]
fn test() {
    let mut chunk = Chunk::new(ChunkCoordinate::new(0, 0));
    {
        let reference_mut = &mut chunk;
        reference_mut.coordinates.x = 1;
    }
    println!("{}", chunk.coordinates.x);
    assert_eq!(chunk.coordinates.x, 1);
}

#[test]
fn object_as_any() {
    let colored_object = SceneObject::Colored(ColoredSceneObject::new(
        Vec::new(),
        Vec::new(),
        0,
        Point3::new(0, 0, 0),
    ));
    let image_textured_object = SceneObject::ImageTextured(ImageTexturedSceneObject::new(
        Vec::new(),
        Vec::new(),
        TextureImage::new(50, 50, vec![0; 50 * 50 * 3]),
        0,
        Point3::new(0, 0, 0),
    ));
    let tga_textured_object = SceneObject::TgaTextured(TgaTexturedSceneObject::new(
        Vec::new(),
        Vec::new(),
        TextureImage::new(50, 50, vec![0; 50 * 50 * 3]),
        TextureImage::new(50, 50, vec![0; 50 * 50 * 3]),
        0,
        Point3::new(0, 0, 0),
    ));

    assert!(colored_object.get_type() == ObjectTypes::Colored);
    assert!(image_textured_object.get_type() == ObjectTypes::ImageTextured);
    assert!(tga_textured_object.get_type() == ObjectTypes::TgaTextured);

    assert!(colored_object.as_colored().is_some());
    assert!(colored_object.as_image_textured().is_none());
    assert!(image_textured_object.as_image_textured().is_some());
    assert!(image_textured_object.as_tga_textured().is_none());
    assert!(tga_textured_object.as_tga_textured().is_some());
    assert!(tga_textured_object.as_colored().is_none());

    let t = image_textured_object.as_image_textured().unwrap();
    assert_eq!(t.texture.width, 50);
    assert_eq!(t.texture.pixels.len(), 7500);
}

#[test]
fn added_chunk_resolves_inside_its_range() {
    let mut scene = Scene::new(String::from("s"), zero_view());
    let mut c = Chunk::new(ChunkCoordinate::new(3, 4));
    c.add_object(colored(0));
    scene.add_chunk(c, Point2::new(-10, -10), Point2::new(10, 10));
    for p in [Point2::new(-10, -10), Point2::new(10, 10), Point2::new(0, 5), Point2::new(-10, 10)] {
        let found = scene.get_chunk(p).unwrap();
        assert_eq!(found.coordinates, ChunkCoordinate::new(3, 4));
        assert_eq!(found.objects.len(), 1);
    }
    assert_eq!(scene.get_chunk(Point2::new(11, 0)).err(), Some(ChunkError::NoMatchingRange));
    assert_eq!(scene.get_chunk(Point2::new(0, -11)).err(), Some(ChunkError::NoMatchingRange));
}

#[test]
fn overlapping_ranges_resolve_to_first_inserted() {
    let mut scene = Scene::new(String::from("s"), zero_view());
    scene.add_chunk(Chunk::new(ChunkCoordinate::new(0, 0)), Point2::new(0, 0), Point2::new(150, 150));
    scene.add_chunk(Chunk::new(ChunkCoordinate::new(1, 1)), Point2::new(50, 50), Point2::new(100, 100));
    let found = scene.get_chunk(Point2::new(75, 75)).unwrap();
    assert_eq!(found.coordinates, ChunkCoordinate::new(0, 0));
}

#[test]
fn empty_scene_resolves_nothing() {
    let scene = Scene::new(String::from("s"), zero_view());
    assert_eq!(scene.get_chunk(Point2::new(0, 0)).err(), Some(ChunkError::NoMatchingRange));
    assert_eq!(scene.get_current_chunk().err(), Some(ChunkError::NoMatchingRange));
}

#[test]
fn range_without_chunk_reports_missing_chunk() {
    let mut scene = Scene::new(String::from("s"), zero_view());
    scene.add_chunk(Chunk::new(ChunkCoordinate::new(0, 0)), Point2::new(0, 0), Point2::new(10, 10));
    scene.chunk_corners.push(ChunkCorners {
        begin: Point2::new(20, 20),
        end: Point2::new(30, 30),
        chunk: ChunkCoordinate::new(9, 9),
    });
    assert_eq!(scene.get_chunk(Point2::new(25, 25)).err(), Some(ChunkError::ChunkMissing));
    assert!(scene.get_chunk(Point2::new(5, 5)).is_ok());
}

#[test]
fn current_chunk_follows_at_x_and_z_only() {
    let mut scene = Scene::new(String::from("s"), zero_view());
    scene.add_chunk(Chunk::new(ChunkCoordinate::new(0, 0)), Point2::new(0, 0), Point2::new(10, 10));
    scene.add_chunk(Chunk::new(ChunkCoordinate::new(1, 0)), Point2::new(11, 0), Point2::new(20, 10));
    scene.camera.set_at(Point3::new(5, 0, 5));
    assert_eq!(scene.get_current_chunk().unwrap().coordinates, ChunkCoordinate::new(0, 0));
    scene.camera.set_at(Point3::new(5, 1000, 5));
    assert_eq!(scene.get_current_chunk().unwrap().coordinates, ChunkCoordinate::new(0, 0));
    scene.camera.set_at(Point3::new(5, -77, 5));
    assert_eq!(scene.get_current_chunk().unwrap().coordinates, ChunkCoordinate::new(0, 0));
    scene.camera.set_at(Point3::new(15, -77, 5));
    assert_eq!(scene.get_current_chunk().unwrap().coordinates, ChunkCoordinate::new(1, 0));
    scene.camera.set_eye(Point3::new(500, 500, 500));
    assert_eq!(scene.get_current_chunk().unwrap().coordinates, ChunkCoordinate::new(1, 0));
}

#[test]
fn adding_chunk_at_same_coordinate_replaces_it() {
    let mut scene = Scene::new(String::from("s"), zero_view());
    scene.add_chunk(Chunk::new(ChunkCoordinate::new(0, 0)), Point2::new(0, 0), Point2::new(10, 10));
    let mut replacement = Chunk::new(ChunkCoordinate::new(0, 0));
    replacement.add_object(colored(0));
    replacement.add_object(colored(1));
    scene.add_chunk(replacement, Point2::new(100, 100), Point2::new(110, 110));
    assert_eq!(scene.chunk_count(), 1);
    assert_eq!(scene.range_count(), 2);
    assert_eq!(scene.get_chunk(Point2::new(5, 5)).unwrap().objects.len(), 2);
    assert_eq!(scene.get_chunk(Point2::new(105, 105)).unwrap().objects.len(), 2);
}

#[test]
fn objects_are_added_to_stored_chunks() {
    let mut scene = Scene::new(String::from("s"), zero_view());
    scene.add_chunk(Chunk::new(ChunkCoordinate::new(2, 2)), Point2::new(0, 0), Point2::new(10, 10));
    assert_eq!(scene.add_object(ChunkCoordinate::new(2, 2), colored(0)), Ok(0));
    assert_eq!(scene.add_object(ChunkCoordinate::new(2, 2), colored(0)), Ok(1));
    assert_eq!(
        scene.add_object(ChunkCoordinate::new(5, 5), colored(0)),
        Err(ChunkError::ChunkMissing)
    );
    assert_eq!(scene.get_chunk(Point2::new(1, 1)).unwrap().objects.len(), 2);
}

#[test]
fn chunk_add_object_returns_positions() {
    let mut chunk = Chunk::new(ChunkCoordinate::new(0, 0));
    assert_eq!(chunk.add_object(colored(0)), 0);
    assert_eq!(chunk.add_object(colored(0)), 1);
    assert_eq!(chunk.add_object(colored(0)), 2);
    assert_eq!(chunk.objects[1].shader_container(), 0);
    assert_eq!(chunk.objects[1].coordinates(), Point3::new(1, 2, 3));
}

#[test]
fn range_bounds_are_inclusive() {
    let c = ChunkCorners { begin: Point2::new(0, 0), end: Point2::new(5, 5), chunk: ChunkCoordinate::new(0, 0) };
    assert!(c.check_range(Point2::new(0, 0)));
    assert!(c.check_range(Point2::new(5, 5)));
    assert!(!c.check_range(Point2::new(6, 5)));
    assert!(!c.check_range(Point2::new(5, -1)));
}

#[test]
fn chunk_at_finds_stored_chunks_only() {
    let mut scene = Scene::new(String::from("s"), zero_view());
    assert!(scene.chunk_at(ChunkCoordinate::new(0, 0)).is_none());
    scene.add_chunk(Chunk::new(ChunkCoordinate::new(0, 0)), Point2::new(0, 0), Point2::new(1, 1));
    scene.add_chunk(Chunk::new(ChunkCoordinate::new(-1, 2)), Point2::new(5, 5), Point2::new(6, 6));
    assert_eq!(scene.chunk_at(ChunkCoordinate::new(-1, 2)).unwrap().coordinates, ChunkCoordinate::new(-1, 2));
    assert!(scene.chunk_at(ChunkCoordinate::new(2, -1)).is_none());
}
