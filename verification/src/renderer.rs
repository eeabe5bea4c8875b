//! The framebuffer compositor: turns the background cells and the sprite
//! list of one frame into 256x240 RGBA pixels.
use vstd::prelude::*;
use crate::ppu::background::{background_wf, cell_wf, line_wf, BackgroundCellView};
use crate::ppu::sprite::{sprite_wf, sprites_view, SpriteView};
use crate::ppu::{Background, BackgroundCell, RenderingData, RenderingDataView, Sprite};

verus! {

/// The size of the framebuffer in bytes: 256 x 240 pixels of 4 bytes.
pub const FRAME_BYTES: usize = 245760;

pub type Color = (u8, u8, u8);

/// The console's fixed palette: the red, green and blue of each of the 64
/// colour ids.
pub const COLORS: [Color; 64] = [
    (0x80, 0x80, 0x80),
    (0x00, 0x3D, 0xA6),
    (0x00, 0x12, 0xB0),
    (0x44, 0x00, 0x96),
    (0xA1, 0x00, 0x5E),
    (0xC7, 0x00, 0x28),
    (0xBA, 0x06, 0x00),
    (0x8C, 0x17, 0x00),
    (0x5C, 0x2F, 0x00),
    (0x10, 0x45, 0x00),
    (0x05, 0x4A, 0x00),
    (0x00, 0x47, 0x2E),
    (0x00, 0x41, 0x66),
    (0x00, 0x00, 0x00),
    (0x05, 0x05, 0x05),
    (0x05, 0x05, 0x05),
    (0xC7, 0xC7, 0xC7),
    (0x00, 0x77, 0xFF),
    (0x21, 0x55, 0xFF),
    (0x82, 0x37, 0xFA),
    (0xEB, 0x2F, 0xB5),
    (0xFF, 0x29, 0x50),
    (0xFF, 0x22, 0x00),
    (0xD6, 0x32, 0x00),
    (0xC4, 0x62, 0x00),
    (0x35, 0x80, 0x00),
    (0x05, 0x8F, 0x00),
    (0x00, 0x8A, 0x55),
    (0x00, 0x99, 0xCC),
    (0x21, 0x21, 0x21),
    (0x09, 0x09, 0x09),
    (0x09, 0x09, 0x09),
    (0xFF, 0xFF, 0xFF),
    (0x0F, 0xD7, 0xFF),
    (0x69, 0xA2, 0xFF),
    (0xD4, 0x80, 0xFF),
    (0xFF, 0x45, 0xF3),
    (0xFF, 0x61, 0x8B),
    (0xFF, 0x88, 0x33),
    (0xFF, 0x9C, 0x12),
    (0xFA, 0xBC, 0x20),
    (0x9F, 0xE3, 0x0E),
    (0x2B, 0xF0, 0x35),
    (0x0C, 0xF0, 0xA4),
    (0x05, 0xFB, 0xFF),
    (0x5E, 0x5E, 0x5E),
    (0x0D, 0x0D, 0x0D),
    (0x0D, 0x0D, 0x0D),
    (0xFF, 0xFF, 0xFF),
    (0xA6, 0xFC, 0xFF),
    (0xB3, 0xEC, 0xFF),
    (0xDA, 0xAB, 0xEB),
    (0xFF, 0xA8, 0xF9),
    (0xFF, 0xAB, 0xB3),
    (0xFF, 0xD2, 0xB0),
    (0xFF, 0xEF, 0xA6),
    (0xFF, 0xF7, 0x9C),
    (0xD7, 0xE8, 0x95),
    (0xA6, 0xED, 0xAF),
    (0xA2, 0xF2, 0xDA),
    (0x99, 0xFF, 0xFC),
    (0xDD, 0xDD, 0xDD),
    (0x11, 0x11, 0x11),
    (0x11, 0x11, 0x11),
];

pub struct Renderer {
    result: [u8; FRAME_BYTES],
}

impl View for Renderer {
    type V = Seq<u8>;

    closed spec fn view(&self) -> Seq<u8> {
        self.result@
    }
}

/// The framebuffer before anything is drawn: every byte 0xFF, which is
/// opaque white.
pub open spec fn blank_frame() -> Seq<u8> {
    Seq::new(FRAME_BYTES as nat, |i: int| 0xFFu8)
}

/// The colour of colour id `color_id`. The palette has 64 entries, so the id
/// counts modulo 64.
pub open spec fn color_of(color_id: u8) -> Color {
    COLORS[(color_id % 64) as int]
}

/// The buffer after the pixel at (`x`, `y`) is set to `color`: its red,
/// green and blue bytes are written, and in the leftmost 8 columns its alpha
/// byte is set to 0.
pub open spec fn put_pixel(buffer: Seq<u8>, x: int, y: int, color: Color) -> Seq<u8> {
    let index = (y * 256 + x) * 4;
    let colored = buffer.update(index, color.0).update(index + 1, color.1).update(
        index + 2,
        color.2,
    );
    if x < 8 {
        colored.update(index + 3, 0)
    } else {
        colored
    }
}

/// The buffer after pixel (`offset_x`, `offset_y`) of a background cell is
/// drawn. The cell at tile (`tile_row`, `tile_column`) is shifted left and up
/// by its scroll modulo 8, and pixels that fall off the screen are dropped.
pub open spec fn cell_pixel(
    buffer: Seq<u8>,
    cell: BackgroundCellView,
    tile_row: int,
    tile_column: int,
    offset_x: int,
    offset_y: int,
) -> Seq<u8> {
    let y = tile_row * 8 + offset_y - cell.scroll_y % 8;
    let x = tile_column * 8 + offset_x - cell.scroll_x % 8;
    if 0 <= x < 256 && 0 <= y < 240 {
        put_pixel(
            buffer,
            x,
            y,
            color_of(cell.palette_value[cell.tile[offset_y][offset_x] as int]),
        )
    } else {
        buffer
    }
}

/// The buffer after the first `count` pixels of row `offset_y` of a cell are
/// drawn, left to right.
pub open spec fn cell_row(
    buffer: Seq<u8>,
    cell: BackgroundCellView,
    tile_row: int,
    tile_column: int,
    offset_y: int,
    count: int,
) -> Seq<u8>
    decreases count,
{
    if count <= 0 {
        buffer
    } else {
        cell_pixel(
            cell_row(buffer, cell, tile_row, tile_column, offset_y, count - 1),
            cell,
            tile_row,
            tile_column,
            count - 1,
            offset_y,
        )
    }
}

/// The buffer after the first `count` rows of a cell are drawn, top to
/// bottom.
pub open spec fn cell_rows(
    buffer: Seq<u8>,
    cell: BackgroundCellView,
    tile_row: int,
    tile_column: int,
    count: int,
) -> Seq<u8>
    decreases count,
{
    if count <= 0 {
        buffer
    } else {
        cell_row(
            cell_rows(buffer, cell, tile_row, tile_column, count - 1),
            cell,
            tile_row,
            tile_column,
            count - 1,
            8,
        )
    }
}

/// The buffer after a background cell is drawn: all of its 64 pixels if it is
/// visible, nothing if it is not.
pub open spec fn painted_cell(
    buffer: Seq<u8>,
    cell: BackgroundCellView,
    tile_row: int,
    tile_column: int,
) -> Seq<u8> {
    if cell.is_visible {
        cell_rows(buffer, cell, tile_row, tile_column, 8)
    } else {
        buffer
    }
}

/// The buffer after the first `count` cells of a background line are drawn,
/// left to right.
pub open spec fn painted_line(
    buffer: Seq<u8>,
    line: Seq<BackgroundCellView>,
    tile_row: int,
    count: int,
) -> Seq<u8>
    decreases count,
{
    if count <= 0 {
        buffer
    } else {
        painted_cell(
            painted_line(buffer, line, tile_row, count - 1),
            line[count - 1],
            tile_row,
            count - 1,
        )
    }
}

/// The buffer after the first `count` lines of a background are drawn, top to
/// bottom.
pub open spec fn painted_lines(
    buffer: Seq<u8>,
    background: Seq<Seq<BackgroundCellView>>,
    count: int,
) -> Seq<u8>
    decreases count,
{
    if count <= 0 {
        buffer
    } else {
        painted_line(
            painted_lines(buffer, background, count - 1),
            background[count - 1],
            count - 1,
            32,
        )
    }
}

/// The buffer after the whole background, 30 lines of 32 cells, is drawn.
pub open spec fn painted_background(
    buffer: Seq<u8>,
    background: Seq<Seq<BackgroundCellView>>,
) -> Seq<u8> {
    painted_lines(buffer, background, 30)
}

/// The colour index that a sprite shows at offset (`offset_x`, `offset_y`) of
/// its 8x8 box: the tile pixel that the flips select.
pub open spec fn sprite_source(sprite: SpriteView, offset_x: int, offset_y: int) -> u8 {
    let source_y = if sprite.attribute.is_flip_vertical {
        7 - offset_y
    } else {
        offset_y
    };
    let source_x = if sprite.attribute.is_flip_horizontal {
        7 - offset_x
    } else {
        offset_x
    };
    sprite.tile[source_y][source_x]
}

/// The buffer after pixel (`offset_x`, `offset_y`) of a sprite is drawn at
/// the sprite's position. Colour index 0 is transparent, and pixels that
/// fall off the screen are dropped.
pub open spec fn sprite_pixel(
    buffer: Seq<u8>,
    sprite: SpriteView,
    offset_x: int,
    offset_y: int,
) -> Seq<u8> {
    let y = sprite.y + offset_y;
    let x = sprite.x + offset_x;
    let palette_offset = sprite_source(sprite, offset_x, offset_y);
    if y >= 240 || x >= 256 || palette_offset == 0 {
        buffer
    } else {
        put_pixel(buffer, x, y, color_of(sprite.attribute.palette_value[palette_offset as int]))
    }
}

/// The buffer after the first `count` pixels of row `offset_y` of a sprite
/// are drawn, left to right.
pub open spec fn sprite_row(buffer: Seq<u8>, sprite: SpriteView, offset_y: int, count: int) -> Seq<
    u8,
>
    decreases count,
{
    if count <= 0 {
        buffer
    } else {
        sprite_pixel(sprite_row(buffer, sprite, offset_y, count - 1), sprite, count - 1, offset_y)
    }
}

/// The buffer after the first `count` rows of a sprite are drawn, top to
/// bottom.
pub open spec fn sprite_rows(buffer: Seq<u8>, sprite: SpriteView, count: int) -> Seq<u8>
    decreases count,
{
    if count <= 0 {
        buffer
    } else {
        sprite_row(sprite_rows(buffer, sprite, count - 1), sprite, count - 1, 8)
    }
}

/// The buffer after a sprite is drawn: nothing of a sprite that lies behind
/// the background.
pub open spec fn painted_sprite(buffer: Seq<u8>, sprite: SpriteView) -> Seq<u8> {
    if sprite.attribute.is_low_priority {
        buffer
    } else {
        sprite_rows(buffer, sprite, 8)
    }
}

/// The buffer after the first `count` sprites of a list are drawn in order,
/// so that a later sprite covers an earlier one.
pub open spec fn painted_sprites(buffer: Seq<u8>, sprites: Seq<SpriteView>, count: int) -> Seq<u8>
    decreases count,
{
    if count <= 0 {
        buffer
    } else {
        painted_sprite(painted_sprites(buffer, sprites, count - 1), sprites[count - 1])
    }
}

/// The buffer after a frame is drawn: the background first, the sprites over
/// it.
pub open spec fn rendered(buffer: Seq<u8>, data: RenderingDataView) -> Seq<u8> {
    painted_sprites(
        painted_background(buffer, data.background),
        data.sprites,
        data.sprites.len() as int,
    )
}

/// Every sprite of a list has a decoded tile and a palette of four colours.
pub open spec fn all_sprites_wf(sprites: Seq<SpriteView>) -> bool {
    forall|index: int| 0 <= index < sprites.len() ==> sprite_wf(#[trigger] sprites[index])
}

impl Renderer {
    pub fn new() -> (renderer: Self)
        ensures
            renderer@ == blank_frame(),
    {
        let renderer = Renderer { result: [0xFFu8; FRAME_BYTES] };
        assert(renderer@ =~= blank_frame());
        renderer
    }

    /// The framebuffer: 256 x 240 pixels, row by row, four bytes each.
    pub fn pixels(&self) -> (pixels: &[u8])
        ensures
            pixels@ == self@,
            pixels@.len() == FRAME_BYTES,
    {
        &self.result
    }

    /// Draws one frame into the framebuffer.
    pub fn render(&mut self, rendering_data: RenderingData)
        requires
            background_wf(rendering_data@.background),
            all_sprites_wf(rendering_data@.sprites),
        ensures
            final(self)@ == rendered(old(self)@, rendering_data@),
    {
        self.set_background(&rendering_data.background);
        self.set_sprites(&rendering_data.sprites);
    }

    pub fn set_background(&mut self, background: &Background)
        requires
            background_wf(background@),
        ensures
            final(self)@ == painted_background(old(self)@, background@),
    {
        for tile_row in 0..30usize
            invariant
                background_wf(background@),
                self@ == painted_lines(old(self)@, background@, tile_row as int),
        {
            let ghost before = self@;
            assert(background@[tile_row as int].len() == 32);
            for tile_column in 0..32usize
                invariant
                    tile_row < 30,
                    background_wf(background@),
                    background.lines@.len() == 30,
                    background.lines@[tile_row as int]@.len() == 32,
                    self@ == painted_line(
                        before,
                        background@[tile_row as int],
                        tile_row as int,
                        tile_column as int,
                    ),
            {
                let cell = &background.lines[tile_row][tile_column];
                assert(cell@ == background@[tile_row as int][tile_column as int]);
                self.set_cell(cell, tile_row, tile_column);
            }
        }
    }

    pub fn set_cell(&mut self, cell: &BackgroundCell, tile_row: usize, tile_column: usize)
        requires
            cell_wf(cell@),
            tile_row < 30,
            tile_column < 32,
        ensures
            final(self)@ == painted_cell(old(self)@, cell@, tile_row as int, tile_column as int),
    {
        if !cell.is_visible {
            return ;
        }
        for offset_y in 0..8isize
            invariant
                cell_wf(cell@),
                tile_row < 30,
                tile_column < 32,
                self@ == cell_rows(
                    old(self)@,
                    cell@,
                    tile_row as int,
                    tile_column as int,
                    offset_y as int,
                ),
        {
            let ghost before = self@;
            for offset_x in 0..8isize
                invariant
                    cell_wf(cell@),
                    tile_row < 30,
                    tile_column < 32,
                    0 <= offset_y < 8,
                    self@ == cell_row(
                        before,
                        cell@,
                        tile_row as int,
                        tile_column as int,
                        offset_y as int,
                        offset_x as int,
                    ),
            {
                let y = tile_row as isize * 8 + offset_y - (cell.scroll_y % 8) as isize;
                let x = tile_column as isize * 8 + offset_x - (cell.scroll_x % 8) as isize;
                if 0 <= x && x < 256 && 0 <= y && y < 240 {
                    let palette_offset = cell.tile.palette_offset(offset_x as u8, offset_y as u8);
                    let color_id = cell.palette_value[palette_offset as usize];
                    self.set_pixel(x as usize, y as usize, color_id);
                }
            }
        }
    }

    pub fn set_sprites(&mut self, sprites: &Vec<Sprite>)
        requires
            all_sprites_wf(sprites_view(sprites@)),
        ensures
            final(self)@ == painted_sprites(
                old(self)@,
                sprites_view(sprites@),
                sprites@.len() as int,
            ),
    {
        for index in 0..sprites.len()
            invariant
                all_sprites_wf(sprites_view(sprites@)),
                self@ == painted_sprites(old(self)@, sprites_view(sprites@), index as int),
        {
            let sprite = &sprites[index];
            assert(sprite@ == sprites_view(sprites@)[index as int]);
            self.set_sprite(sprite);
        }
    }

    pub fn set_sprite(&mut self, sprite: &Sprite)
        requires
            sprite_wf(sprite@),
        ensures
            final(self)@ == painted_sprite(old(self)@, sprite@),
    {
        if sprite.attribute.is_low_priority {
            return ;
        }
        for screen_offset_y in 0..8isize
            invariant
                sprite_wf(sprite@),
                self@ == sprite_rows(old(self)@, sprite@, screen_offset_y as int),
        {
            let ghost before = self@;
            for screen_offset_x in 0..8isize
                invariant
                    sprite_wf(sprite@),
                    0 <= screen_offset_y < 8,
                    self@ == sprite_row(
                        before,
                        sprite@,
                        screen_offset_y as int,
                        screen_offset_x as int,
                    ),
            {
                let offset_y = if sprite.attribute.is_flip_vertical {
                    7 - screen_offset_y
                } else {
                    screen_offset_y
                };
                let offset_x = if sprite.attribute.is_flip_horizontal {
                    7 - screen_offset_x
                } else {
                    screen_offset_x
                };
                let y = sprite.y as isize + screen_offset_y;
                let x = sprite.x as isize + screen_offset_x;
                if 0 <= y && y < 240 && 0 <= x && x < 256 {
                    let palette_offset = sprite.tile.palette_offset(
                        offset_x as u8,
                        offset_y as u8,
                    );
                    let color_id = sprite.attribute.palette_value[palette_offset as usize];
                    if palette_offset != 0 {
                        self.set_pixel(x as usize, y as usize, color_id);
                    }
                }
            }
        }
    }

    /// Sets the pixel at (`x`, `y`) to the colour of `color_id`.
    fn set_pixel(&mut self, x: usize, y: usize, color_id: u8)
        requires
            x < 256,
            y < 240,
        ensures
            final(self)@ == put_pixel(old(self)@, x as int, y as int, color_of(color_id)),
    {
        let color = COLORS[(color_id % 64) as usize];
        let index = (y * 256 + x) * 4;
        self.result[index] = color.0;
        self.result[index + 1] = color.1;
        self.result[index + 2] = color.2;
        if x < 8 {
            self.result[index + 3] = 0;
        }
    }
}

/// The place in the framebuffer of byte `channel` (red, green, blue, alpha) of
/// the pixel at (`x`, `y`).
pub open spec fn byte_index(x: int, y: int, channel: int) -> int {
    (y * 256 + x) * 4 + channel
}

/// Byte `channel` of a pixel in column `x` after the pixel is set to `color`:
/// the colour's red, green or blue, and for alpha 0 in the leftmost 8 columns
/// and the byte `before` elsewhere.
pub open spec fn colored_byte(before: u8, color: Color, x: int, channel: int) -> u8 {
    if channel == 0 {
        color.0
    } else if channel == 1 {
        color.1
    } else if channel == 2 {
        color.2
    } else if x < 8 {
        0
    } else {
        before
    }
}

/// A sprite draws the pixel at (`x`, `y`): the sprite lies before the
/// background, the pixel lies in its 8x8 box, and the colour index that the
/// sprite shows there is not the transparent index 0.
pub open spec fn sprite_draws(sprite: SpriteView, x: int, y: int) -> bool {
    &&& !sprite.attribute.is_low_priority
    &&& sprite.x <= x < sprite.x + 8
    &&& sprite.y <= y < sprite.y + 8
    &&& sprite_source(sprite, x - sprite.x, y - sprite.y) != 0
}

/// The colour that a sprite gives the pixel at (`x`, `y`) of its box.
pub open spec fn sprite_color(sprite: SpriteView, x: int, y: int) -> Color {
    color_of(
        sprite.attribute.palette_value[sprite_source(sprite, x - sprite.x, y - sprite.y) as int],
    )
}

/// A background cell at tile (`tile_row`, `tile_column`) draws the pixel at
/// (`x`, `y`): the cell is visible and the pixel lies in its 8x8 box, which
/// is shifted left and up by the scroll modulo 8.
pub open spec fn cell_draws(
    cell: BackgroundCellView,
    tile_row: int,
    tile_column: int,
    x: int,
    y: int,
) -> bool {
    &&& cell.is_visible
    &&& 0 <= x - (tile_column * 8 - cell.scroll_x % 8) < 8
    &&& 0 <= y - (tile_row * 8 - cell.scroll_y % 8) < 8
}

/// The colour that a background cell gives the pixel at (`x`, `y`) of its
/// box.
pub open spec fn cell_color(
    cell: BackgroundCellView,
    tile_row: int,
    tile_column: int,
    x: int,
    y: int,
) -> Color {
    color_of(
        cell.palette_value[cell.tile[y - (tile_row * 8 - cell.scroll_y % 8)][x - (tile_column * 8
            - cell.scroll_x % 8)] as int],
    )
}

/// Setting a pixel changes the four bytes of that pixel and no other byte.
pub proof fn lemma_put_pixel(
    buffer: Seq<u8>,
    at_x: int,
    at_y: int,
    color: Color,
    x: int,
    y: int,
    channel: int,
)
    requires
        buffer.len() == FRAME_BYTES,
        0 <= at_x < 256,
        0 <= at_y < 240,
        0 <= x < 256,
        0 <= y < 240,
        0 <= channel < 4,
    ensures
        put_pixel(buffer, at_x, at_y, color).len() == FRAME_BYTES,
        put_pixel(buffer, at_x, at_y, color)[byte_index(x, y, channel)] == if x == at_x && y
            == at_y {
            colored_byte(buffer[byte_index(x, y, channel)], color, x, channel)
        } else {
            buffer[byte_index(x, y, channel)]
        },
{
}

proof fn lemma_sprite_row(
    buffer: Seq<u8>,
    sprite: SpriteView,
    offset_y: int,
    count: int,
    x: int,
    y: int,
    channel: int,
)
    requires
        buffer.len() == FRAME_BYTES,
        sprite_wf(sprite),
        0 <= offset_y < 8,
        0 <= count <= 8,
        0 <= x < 256,
        0 <= y < 240,
        0 <= channel < 4,
    ensures
        sprite_row(buffer, sprite, offset_y, count).len() == FRAME_BYTES,
        sprite_row(buffer, sprite, offset_y, count)[byte_index(x, y, channel)] == if y == sprite.y
            + offset_y && sprite.x <= x < sprite.x + count && sprite_source(
            sprite,
            x - sprite.x,
            offset_y,
        ) != 0 {
            colored_byte(
                buffer[byte_index(x, y, channel)],
                sprite_color(sprite, x, y),
                x,
                channel,
            )
        } else {
            buffer[byte_index(x, y, channel)]
        },
    decreases count,
{
    if count > 0 {
        lemma_sprite_row(buffer, sprite, offset_y, count - 1, x, y, channel);
        let before = sprite_row(buffer, sprite, offset_y, count - 1);
        let at_x = sprite.x + (count - 1);
        let at_y = sprite.y + offset_y;
        let source = sprite_source(sprite, count - 1, offset_y);
        if at_y < 240 && at_x < 256 && source != 0 {
            lemma_put_pixel(
                before,
                at_x,
                at_y,
                color_of(sprite.attribute.palette_value[source as int]),
                x,
                y,
                channel,
            );
        }
    }
}

proof fn lemma_sprite_rows(
    buffer: Seq<u8>,
    sprite: SpriteView,
    count: int,
    x: int,
    y: int,
    channel: int,
)
    requires
        buffer.len() == FRAME_BYTES,
        sprite_wf(sprite),
        0 <= count <= 8,
        0 <= x < 256,
        0 <= y < 240,
        0 <= channel < 4,
    ensures
        sprite_rows(buffer, sprite, count).len() == FRAME_BYTES,
        sprite_rows(buffer, sprite, count)[byte_index(x, y, channel)] == if sprite.y <= y
            < sprite.y + count && sprite.x <= x < sprite.x + 8 && sprite_source(
            sprite,
            x - sprite.x,
            y - sprite.y,
        ) != 0 {
            colored_byte(
                buffer[byte_index(x, y, channel)],
                sprite_color(sprite, x, y),
                x,
                channel,
            )
        } else {
            buffer[byte_index(x, y, channel)]
        },
    decreases count,
{
    if count > 0 {
        lemma_sprite_rows(buffer, sprite, count - 1, x, y, channel);
        lemma_sprite_row(sprite_rows(buffer, sprite, count - 1), sprite, count - 1, 8, x, y, channel);
    }
}

/// What a sprite does to the framebuffer, pixel by pixel: a pixel that the
/// sprite draws gets the colour of the sprite's palette at the colour index
/// that the sprite shows there, with alpha 0 in the leftmost 8 columns, and
/// every other byte of the framebuffer stays as it was.
pub proof fn lemma_painted_sprite(
    buffer: Seq<u8>,
    sprite: SpriteView,
    x: int,
    y: int,
    channel: int,
)
    requires
        buffer.len() == FRAME_BYTES,
        sprite_wf(sprite),
        0 <= x < 256,
        0 <= y < 240,
        0 <= channel < 4,
    ensures
        painted_sprite(buffer, sprite).len() == FRAME_BYTES,
        painted_sprite(buffer, sprite)[byte_index(x, y, channel)] == if sprite_draws(
            sprite,
            x,
            y,
        ) {
            colored_byte(
                buffer[byte_index(x, y, channel)],
                sprite_color(sprite, x, y),
                x,
                channel,
            )
        } else {
            buffer[byte_index(x, y, channel)]
        },
{
    lemma_sprite_rows(buffer, sprite, 8, x, y, channel);
}

proof fn lemma_cell_row(
    buffer: Seq<u8>,
    cell: BackgroundCellView,
    tile_row: int,
    tile_column: int,
    offset_y: int,
    count: int,
    x: int,
    y: int,
    channel: int,
)
    requires
        buffer.len() == FRAME_BYTES,
        cell_wf(cell),
        0 <= tile_row < 30,
        0 <= tile_column < 32,
        0 <= offset_y < 8,
        0 <= count <= 8,
        0 <= x < 256,
        0 <= y < 240,
        0 <= channel < 4,
    ensures
        cell_row(buffer, cell, tile_row, tile_column, offset_y, count).len() == FRAME_BYTES,
        cell_row(buffer, cell, tile_row, tile_column, offset_y, count)[byte_index(x, y, channel)]
            == if y == tile_row * 8 + offset_y - cell.scroll_y % 8 && 0 <= x - (tile_column * 8
            - cell.scroll_x % 8) < count {
            colored_byte(
                buffer[byte_index(x, y, channel)],
                cell_color(cell, tile_row, tile_column, x, y),
                x,
                channel,
            )
        } else {
            buffer[byte_index(x, y, channel)]
        },
    decreases count,
{
    if count > 0 {
        lemma_cell_row(buffer, cell, tile_row, tile_column, offset_y, count - 1, x, y, channel);
        let before = cell_row(buffer, cell, tile_row, tile_column, offset_y, count - 1);
        let at_y = tile_row * 8 + offset_y - cell.scroll_y % 8;
        let at_x = tile_column * 8 + (count - 1) - cell.scroll_x % 8;
        if 0 <= at_x < 256 && 0 <= at_y < 240 {
            lemma_put_pixel(
                before,
                at_x,
                at_y,
                color_of(cell.palette_value[cell.tile[offset_y][count - 1] as int]),
                x,
                y,
                channel,
            );
        }
    }
}

proof fn lemma_cell_rows(
    buffer: Seq<u8>,
    cell: BackgroundCellView,
    tile_row: int,
    tile_column: int,
    count: int,
    x: int,
    y: int,
    channel: int,
)
    requires
        buffer.len() == FRAME_BYTES,
        cell_wf(cell),
        0 <= tile_row < 30,
        0 <= tile_column < 32,
        0 <= count <= 8,
        0 <= x < 256,
        0 <= y < 240,
        0 <= channel < 4,
    ensures
        cell_rows(buffer, cell, tile_row, tile_column, count).len() == FRAME_BYTES,
        cell_rows(buffer, cell, tile_row, tile_column, count)[byte_index(x, y, channel)] == if 0
            <= y - (tile_row * 8 - cell.scroll_y % 8) < count && 0 <= x - (tile_column * 8
            - cell.scroll_x % 8) < 8 {
            colored_byte(
                buffer[byte_index(x, y, channel)],
                cell_color(cell, tile_row, tile_column, x, y),
                x,
                channel,
            )
        } else {
            buffer[byte_index(x, y, channel)]
        },
    decreases count,
{
    if count > 0 {
        lemma_cell_rows(buffer, cell, tile_row, tile_column, count - 1, x, y, channel);
        lemma_cell_row(
            cell_rows(buffer, cell, tile_row, tile_column, count - 1),
            cell,
            tile_row,
            tile_column,
            count - 1,
            8,
            x,
            y,
            channel,
        );
    }
}

/// What a background cell does to the framebuffer, pixel by pixel: a pixel
/// on the screen that the cell draws gets the colour of the cell's palette at
/// the tile's colour index for that pixel, with alpha 0 in the leftmost 8
/// columns, and every other byte of the framebuffer stays as it was.
pub proof fn lemma_painted_cell(
    buffer: Seq<u8>,
    cell: BackgroundCellView,
    tile_row: int,
    tile_column: int,
    x: int,
    y: int,
    channel: int,
)
    requires
        buffer.len() == FRAME_BYTES,
        cell_wf(cell),
        0 <= tile_row < 30,
        0 <= tile_column < 32,
        0 <= x < 256,
        0 <= y < 240,
        0 <= channel < 4,
    ensures
        painted_cell(buffer, cell, tile_row, tile_column).len() == FRAME_BYTES,
        painted_cell(buffer, cell, tile_row, tile_column)[byte_index(x, y, channel)]
            == if cell_draws(cell, tile_row, tile_column, x, y) {
            colored_byte(
                buffer[byte_index(x, y, channel)],
                cell_color(cell, tile_row, tile_column, x, y),
                x,
                channel,
            )
        } else {
            buffer[byte_index(x, y, channel)]
        },
{
    lemma_cell_rows(buffer, cell, tile_row, tile_column, 8, x, y, channel);
}

/// A byte of a pixel after the first `count` cells of a background line are
/// drawn over the byte `below`: each cell that draws the pixel colours it in
/// turn.
pub open spec fn line_byte(
    below: u8,
    line: Seq<BackgroundCellView>,
    tile_row: int,
    count: int,
    x: int,
    y: int,
    channel: int,
) -> u8
    decreases count,
{
    if count <= 0 {
        below
    } else {
        let under = line_byte(below, line, tile_row, count - 1, x, y, channel);
        if cell_draws(line[count - 1], tile_row, count - 1, x, y) {
            colored_byte(under, cell_color(line[count - 1], tile_row, count - 1, x, y), x, channel)
        } else {
            under
        }
    }
}

/// A byte of a pixel after the first `count` lines of a background are drawn
/// over the byte `below`.
pub open spec fn lines_byte(
    below: u8,
    background: Seq<Seq<BackgroundCellView>>,
    count: int,
    x: int,
    y: int,
    channel: int,
) -> u8
    decreases count,
{
    if count <= 0 {
        below
    } else {
        line_byte(
            lines_byte(below, background, count - 1, x, y, channel),
            background[count - 1],
            count - 1,
            32,
            x,
            y,
            channel,
        )
    }
}

/// A byte of a pixel after the first `count` sprites of a list are drawn over
/// the byte `below`: each sprite that draws the pixel colours it in turn, so
/// that the last one shows.
pub open spec fn sprites_byte(
    below: u8,
    sprites: Seq<SpriteView>,
    count: int,
    x: int,
    y: int,
    channel: int,
) -> u8
    decreases count,
{
    if count <= 0 {
        below
    } else {
        let under = sprites_byte(below, sprites, count - 1, x, y, channel);
        if sprite_draws(sprites[count - 1], x, y) {
            colored_byte(under, sprite_color(sprites[count - 1], x, y), x, channel)
        } else {
            under
        }
    }
}

proof fn lemma_painted_line(
    buffer: Seq<u8>,
    line: Seq<BackgroundCellView>,
    tile_row: int,
    count: int,
    x: int,
    y: int,
    channel: int,
)
    requires
        buffer.len() == FRAME_BYTES,
        line_wf(line),
        0 <= tile_row < 30,
        0 <= count <= 32,
        0 <= x < 256,
        0 <= y < 240,
        0 <= channel < 4,
    ensures
        painted_line(buffer, line, tile_row, count).len() == FRAME_BYTES,
        painted_line(buffer, line, tile_row, count)[byte_index(x, y, channel)] == line_byte(
            buffer[byte_index(x, y, channel)],
            line,
            tile_row,
            count,
            x,
            y,
            channel,
        ),
    decreases count,
{
    if count > 0 {
        lemma_painted_line(buffer, line, tile_row, count - 1, x, y, channel);
        lemma_painted_cell(
            painted_line(buffer, line, tile_row, count - 1),
            line[count - 1],
            tile_row,
            count - 1,
            x,
            y,
            channel,
        );
    }
}

proof fn lemma_painted_lines(
    buffer: Seq<u8>,
    background: Seq<Seq<BackgroundCellView>>,
    count: int,
    x: int,
    y: int,
    channel: int,
)
    requires
        buffer.len() == FRAME_BYTES,
        background_wf(background),
        0 <= count <= 30,
        0 <= x < 256,
        0 <= y < 240,
        0 <= channel < 4,
    ensures
        painted_lines(buffer, background, count).len() == FRAME_BYTES,
        painted_lines(buffer, background, count)[byte_index(x, y, channel)] == lines_byte(
            buffer[byte_index(x, y, channel)],
            background,
            count,
            x,
            y,
            channel,
        ),
    decreases count,
{
    if count > 0 {
        lemma_painted_lines(buffer, background, count - 1, x, y, channel);
        lemma_painted_line(
            painted_lines(buffer, background, count - 1),
            background[count - 1],
            count - 1,
            32,
            x,
            y,
            channel,
        );
    }
}

proof fn lemma_painted_sprites(
    buffer: Seq<u8>,
    sprites: Seq<SpriteView>,
    count: int,
    x: int,
    y: int,
    channel: int,
)
    requires
        buffer.len() == FRAME_BYTES,
        all_sprites_wf(sprites),
        0 <= count <= sprites.len(),
        0 <= x < 256,
        0 <= y < 240,
        0 <= channel < 4,
    ensures
        painted_sprites(buffer, sprites, count).len() == FRAME_BYTES,
        painted_sprites(buffer, sprites, count)[byte_index(x, y, channel)] == sprites_byte(
            buffer[byte_index(x, y, channel)],
            sprites,
            count,
            x,
            y,
            channel,
        ),
    decreases count,
{
    if count > 0 {
        lemma_painted_sprites(buffer, sprites, count - 1, x, y, channel);
        lemma_painted_sprite(
            painted_sprites(buffer, sprites, count - 1),
            sprites[count - 1],
            x,
            y,
            channel,
        );
    }
}

/// What drawing a frame does to the framebuffer, pixel by pixel: each byte is
/// the byte that was there, coloured in turn by every background cell that
/// draws its pixel, line by line and left to right, and then by every sprite
/// that draws it, in the order of the list. The framebuffer keeps its size.
pub proof fn lemma_rendered(
    buffer: Seq<u8>,
    data: RenderingDataView,
    x: int,
    y: int,
    channel: int,
)
    requires
        buffer.len() == FRAME_BYTES,
        background_wf(data.background),
        all_sprites_wf(data.sprites),
        0 <= x < 256,
        0 <= y < 240,
        0 <= channel < 4,
    ensures
        rendered(buffer, data).len() == FRAME_BYTES,
        rendered(buffer, data)[byte_index(x, y, channel)] == sprites_byte(
            lines_byte(buffer[byte_index(x, y, channel)], data.background, 30, x, y, channel),
            data.sprites,
            data.sprites.len() as int,
            x,
            y,
            channel,
        ),
{
    lemma_painted_lines(buffer, data.background, 30, x, y, channel);
    lemma_painted_sprites(
        painted_background(buffer, data.background),
        data.sprites,
        data.sprites.len() as int,
        x,
        y,
        channel,
    );
}

/// A sprite that lies behind the background and a background cell that is
/// not visible leave the framebuffer as it is.
pub proof fn lemma_hidden_parts(
    buffer: Seq<u8>,
    sprite: SpriteView,
    cell: BackgroundCellView,
    tile_row: int,
    tile_column: int,
)
    ensures
        sprite.attribute.is_low_priority ==> painted_sprite(buffer, sprite) == buffer,
        !cell.is_visible ==> painted_cell(buffer, cell, tile_row, tile_column) == buffer,
{
}

} // verus!
