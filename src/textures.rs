use vstd::prelude::*;

verus! {

/// A texture of the terrain, by its id on the graphics card.
#[derive(Debug, Clone, Copy, PartialEq, Eq, Structural)]
pub struct TerrainTexture {
    pub texture_id: u32,
}

impl TerrainTexture {
    pub fn new(texture_id: u32) -> (r: TerrainTexture)
        ensures
            r.texture_id == texture_id,
    {
        TerrainTexture { texture_id }
    }

    pub fn get_texture_id(&self) -> (r: u32)
        ensures
            r == self.texture_id,
    {
        self.texture_id
    }
}

/// The four textures that a blend map mixes over the terrain: one where the
/// map is black, and one for each of its red, green and blue channels.
#[derive(Debug, Clone, Copy, PartialEq, Eq, Structural)]
pub struct TerrainTexturePack {
    pub bacground_texture: TerrainTexture,
    pub r_texture: TerrainTexture,
    pub g_texture: TerrainTexture,
    pub b_texture: TerrainTexture,
}

impl TerrainTexturePack {
    pub fn new(
        bacground_texture: TerrainTexture,
        r_texture: TerrainTexture,
        g_texture: TerrainTexture,
        b_texture: TerrainTexture,
    ) -> (r: TerrainTexturePack)
        ensures
            r.bacground_texture == bacground_texture,
            r.r_texture == r_texture,
            r.g_texture == g_texture,
            r.b_texture == b_texture,
    {
        TerrainTexturePack { bacground_texture, r_texture, g_texture, b_texture }
    }

    pub fn get_background_texture(&self) -> (r: TerrainTexture)
        ensures
            r == self.bacground_texture,
    {
        self.bacground_texture
    }

    pub fn get_r_texture(&self) -> (r: TerrainTexture)
        ensures
            r == self.r_texture,
    {
        self.r_texture
    }

    pub fn get_g_texture(&self) -> (r: TerrainTexture)
        ensures
            r == self.g_texture,
    {
        self.g_texture
    }

    pub fn get_b_texture(&self) -> (r: TerrainTexture)
        ensures
            r == self.b_texture,
    {
        self.b_texture
    }
}

/// The pixels of one decoded image with its size, as the cube map of the sky
/// takes them.
pub struct TextureData {
    pub width: u32,
    pub height: u32,
    pub buffer: Vec<u8>,
}

impl TextureData {
    pub fn new(buffer: Vec<u8>, width: u32, height: u32) -> (r: TextureData)
        ensures
            r.buffer@ == buffer@,
            r.width == width,
            r.height == height,
    {
        TextureData { width, height, buffer }
    }

    pub fn get_width(&self) -> (r: u32)
        ensures
            r == self.width,
    {
        self.width
    }

    pub fn get_height(&self) -> (r: u32)
        ensures
            r == self.height,
    {
        self.height
    }

    /// A copy of the pixels.
    pub fn get_buffer(&self) -> (r: Vec<u8>)
        ensures
            r@ == self.buffer@,
    {
        let r = self.buffer.clone();
        assert(r@ =~= self.buffer@);
        r
    }
}

} // verus!
