//! The background of one frame: 30 lines of 32 cells, one cell per tile.
use vstd::prelude::*;
use crate::ppu::tile::{tile_wf, Tile};

verus! {

#[derive(Debug, Clone, Copy)]
pub struct BackgroundCell {
    pub tile: Tile,
    pub palette_value: [u8; 4],
    pub scroll_x: u16,
    pub scroll_y: u16,
    pub is_visible: bool,
}

pub type BackgroundLine = Vec<BackgroundCell>;

#[derive(Debug)]
pub struct Background {
    pub lines: Vec<BackgroundLine>,
}

/// A background cell as a mathematical value.
pub struct BackgroundCellView {
    /// The tile's 8 rows of 8 colour indices.
    pub tile: Seq<Seq<u8>>,
    /// The four colour ids of the cell's palette.
    pub palette_value: Seq<u8>,
    /// The horizontal scroll in effect when the cell was built.
    pub scroll_x: u16,
    /// The vertical scroll in effect when the cell was built.
    pub scroll_y: u16,
    pub is_visible: bool,
}

pub open spec fn cell_wf(cell: BackgroundCellView) -> bool {
    &&& tile_wf(cell.tile)
    &&& cell.palette_value.len() == 4
}

/// A complete line: 32 well-formed cells.
pub open spec fn line_wf(line: Seq<BackgroundCellView>) -> bool {
    &&& line.len() == 32
    &&& forall|column: int| 0 <= column < 32 ==> cell_wf(#[trigger] line[column])
}

/// A complete background: 30 complete lines.
pub open spec fn background_wf(lines: Seq<Seq<BackgroundCellView>>) -> bool {
    &&& lines.len() == 30
    &&& forall|row: int| 0 <= row < 30 ==> line_wf(#[trigger] lines[row])
}

impl View for BackgroundCell {
    type V = BackgroundCellView;

    open spec fn view(&self) -> BackgroundCellView {
        BackgroundCellView {
            tile: self.tile@,
            palette_value: self.palette_value@,
            scroll_x: self.scroll_x,
            scroll_y: self.scroll_y,
            is_visible: self.is_visible,
        }
    }
}

/// The cells of a line as mathematical values.
pub open spec fn line_view(line: Seq<BackgroundCell>) -> Seq<BackgroundCellView> {
    Seq::new(line.len(), |column: int| line[column]@)
}

/// The lines of a background as mathematical values.
pub open spec fn lines_view(lines: Seq<BackgroundLine>) -> Seq<Seq<BackgroundCellView>> {
    Seq::new(lines.len(), |row: int| line_view(lines[row]@))
}

impl View for Background {
    type V = Seq<Seq<BackgroundCellView>>;

    open spec fn view(&self) -> Seq<Seq<BackgroundCellView>> {
        lines_view(self.lines@)
    }
}

impl Default for Background {
    fn default() -> (background: Self)
        ensures
            background@ == Seq::<Seq<BackgroundCellView>>::empty(),
    {
        let background = Background { lines: Vec::new() };
        assert(background@ =~= Seq::<Seq<BackgroundCellView>>::empty());
        background
    }
}

impl Background {
    /// Drops every line.
    pub fn clear(&mut self)
        ensures
            final(self)@ == Seq::<Seq<BackgroundCellView>>::empty(),
    {
        self.lines.clear();
        assert(self@ =~= Seq::<Seq<BackgroundCellView>>::empty());
    }

    /// Appends a line below the ones that are there.
    pub fn push_line(&mut self, line: BackgroundLine)
        ensures
            final(self)@ == old(self)@.push(line_view(line@)),
    {
        self.lines.push(line);
        assert(self@ =~= old(self)@.push(line_view(line@)));
    }

    /// A copy of the background, cell by cell.
    pub fn duplicate(&self) -> (copy: Background)
        ensures
            copy@ == self@,
    {
        let mut lines: Vec<BackgroundLine> = Vec::new();
        for row in 0..self.lines.len()
            invariant
                lines@.len() == row,
                forall|r: int| 0 <= r < row ==> (#[trigger] lines@[r])@ == self.lines@[r]@,
        {
            let source = &self.lines[row];
            let mut line: BackgroundLine = Vec::new();
            for column in 0..source.len()
                invariant
                    line@.len() == column,
                    forall|c: int| 0 <= c < column ==> #[trigger] line@[c] == source@[c],
            {
                line.push(source[column]);
            }
            assert(line@ =~= source@);
            lines.push(line);
        }
        let copy = Background { lines };
        assert(copy@ =~= self@);
        copy
    }
}

} // verus!
