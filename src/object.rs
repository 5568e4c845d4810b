use vstd::prelude::*;

use crate::geometry::Point3;

verus! {

/// A vertex with a color. Positions are IEEE-754 single-precision bit patterns
/// of x, y and z: the core hands them to the backend and never reads them.
#[derive(Clone, Copy, Debug, PartialEq, Eq)]
pub struct ColoredVertex {
    pub coordinates: [u32; 3],
    pub color_rgba: u32,
}

/// A vertex with texture coordinates (position as in `ColoredVertex`).
#[derive(Clone, Copy, Debug, PartialEq, Eq)]
pub struct ImageTexturedVertex {
    pub coordinates: [u32; 3],
    pub texture_u: i16,
    pub texture_v: i16,
}

/// A vertex for normal-mapped texturing (position as in `ColoredVertex`).
#[derive(Clone, Copy, Debug, PartialEq, Eq)]
pub struct TgaTexturedVertex {
    pub coordinates: [u32; 3],
    pub normal_rgba: u32,
    pub tangent: u32,
    pub texture_u: i16,
    pub texture_v: i16,
}

/// Decoded pixels of a texture, row by row.
#[derive(Clone, Debug)]
pub struct TextureImage {
    pub width: u32,
    pub height: u32,
    pub pixels: Vec<u8>,
}

/// The tag of a scene object's variant.
#[derive(Clone, Copy, Debug, PartialEq, Eq, Hash, Structural)]
pub enum ObjectTypes {
    Colored,
    ImageTextured,
    TgaTextured,
}

/// A drawable with per-vertex colors. `shaders` is an id of the shader manager.
pub struct ColoredSceneObject {
    pub vertices: Vec<ColoredVertex>,
    pub indices: Vec<u16>,
    pub shaders: i32,
    pub coordinates: Point3,
}

pub struct ImageTexturedSceneObject {
    pub vertices: Vec<ImageTexturedVertex>,
    pub indices: Vec<u16>,
    pub texture: TextureImage,
    pub shaders: i32,
    pub coordinates: Point3,
}

pub struct TgaTexturedSceneObject {
    pub vertices: Vec<TgaTexturedVertex>,
    pub indices: Vec<u16>,
    pub texture_color: TextureImage,
    pub texture_normal: TextureImage,
    pub shaders: i32,
    pub coordinates: Point3,
}

/// A drawable entity of a chunk: one of three closed variants.
pub enum SceneObject {
    Colored(ColoredSceneObject),
    ImageTextured(ImageTexturedSceneObject),
    TgaTextured(TgaTexturedSceneObject),
}

impl TextureImage {
    pub fn new(width: u32, height: u32, pixels: Vec<u8>) -> (r: Self)
        ensures
            r.width == width,
            r.height == height,
            r.pixels@ == pixels@,
    {
        TextureImage { width, height, pixels }
    }
}

impl ColoredSceneObject {
    pub fn new(vertices: Vec<ColoredVertex>, indices: Vec<u16>, shaders: i32, coordinates: Point3) -> (r: Self)
        ensures
            r.vertices@ == vertices@,
            r.indices@ == indices@,
            r.shaders == shaders,
            r.coordinates == coordinates,
    {
        ColoredSceneObject { vertices, indices, shaders, coordinates }
    }
}

impl ImageTexturedSceneObject {
    pub fn new(
        vertices: Vec<ImageTexturedVertex>,
        indices: Vec<u16>,
        texture: TextureImage,
        shaders: i32,
        coordinates: Point3,
    ) -> (r: Self)
        ensures
            r.vertices@ == vertices@,
            r.indices@ == indices@,
            r.texture == texture,
            r.shaders == shaders,
            r.coordinates == coordinates,
    {
        ImageTexturedSceneObject { vertices, indices, texture, shaders, coordinates }
    }
}

impl TgaTexturedSceneObject {
    pub fn new(
        vertices: Vec<TgaTexturedVertex>,
        indices: Vec<u16>,
        texture_color: TextureImage,
        texture_normal: TextureImage,
        shaders: i32,
        coordinates: Point3,
    ) -> (r: Self)
        ensures
            r.vertices@ == vertices@,
            r.indices@ == indices@,
            r.texture_color == texture_color,
            r.texture_normal == texture_normal,
            r.shaders == shaders,
            r.coordinates == coordinates,
    {
        TgaTexturedSceneObject {
            vertices,
            indices,
            texture_color,
            texture_normal,
            shaders,
            coordinates,
        }
    }
}

impl SceneObject {
    pub open spec fn kind(&self) -> ObjectTypes {
        match self {
            SceneObject::Colored(_) => ObjectTypes::Colored,
            SceneObject::ImageTextured(_) => ObjectTypes::ImageTextured,
            SceneObject::TgaTextured(_) => ObjectTypes::TgaTextured,
        }
    }

    pub open spec fn shader_id(&self) -> i32 {
        match self {
            SceneObject::Colored(o) => o.shaders,
            SceneObject::ImageTextured(o) => o.shaders,
            SceneObject::TgaTextured(o) => o.shaders,
        }
    }

    pub open spec fn translation(&self) -> Point3 {
        match self {
            SceneObject::Colored(o) => o.coordinates,
            SceneObject::ImageTextured(o) => o.coordinates,
            SceneObject::TgaTextured(o) => o.coordinates,
        }
    }

    pub fn get_type(&self) -> (r: ObjectTypes)
        ensures
            r == self.kind(),
    {
        match self {
            SceneObject::Colored(_) => ObjectTypes::Colored,
            SceneObject::ImageTextured(_) => ObjectTypes::ImageTextured,
            SceneObject::TgaTextured(_) => ObjectTypes::TgaTextured,
        }
    }

    /// The id of the shader that this object is drawn with.
    pub fn shader_container(&self) -> (r: i32)
        ensures
            r == self.shader_id(),
    {
        match self {
            SceneObject::Colored(o) => o.shaders,
            SceneObject::ImageTextured(o) => o.shaders,
            SceneObject::TgaTextured(o) => o.shaders,
        }
    }

    pub fn coordinates(&self) -> (r: Point3)
        ensures
            r == self.translation(),
    {
        match self {
            SceneObject::Colored(o) => o.coordinates,
            SceneObject::ImageTextured(o) => o.coordinates,
            SceneObject::TgaTextured(o) => o.coordinates,
        }
    }

    pub fn as_colored(&self) -> (r: Option<&ColoredSceneObject>)
        ensures
            match self {
                SceneObject::Colored(o) => r == Some(o),
                _ => r is None,
            },
    {
        match self {
            SceneObject::Colored(o) => Some(o),
            _ => None,
        }
    }

    pub fn as_image_textured(&self) -> (r: Option<&ImageTexturedSceneObject>)
        ensures
            match self {
                SceneObject::ImageTextured(o) => r == Some(o),
                _ => r is None,
            },
    {
        match self {
            SceneObject::ImageTextured(o) => Some(o),
            _ => None,
        }
    }

    pub fn as_tga_textured(&self) -> (r: Option<&TgaTexturedSceneObject>)
        ensures
            match self {
                SceneObject::TgaTextured(o) => r == Some(o),
                _ => r is None,
            },
    {
        match self {
            SceneObject::TgaTextured(o) => Some(o),
            _ => None,
        }
    }
}

} // verus!
