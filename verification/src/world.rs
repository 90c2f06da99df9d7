//! The tile grid and the items that lie on it.

use crate::item::{Item, ItemView};
use crate::scan::{first_where, is_first_where, lemma_first_where_found, lemma_first_where_none};
use vstd::prelude::*;

verus! {

/// What a grid cell is made of.
#[derive(Debug, Clone, Copy, PartialEq, Eq, Structural)]
pub enum TileType {
    Floor,
    Wall,
    Door,
    Stairs,
    Empty,
}

impl TileType {
    /// Floor, doors and empty space can be walked on; walls and stairs cannot.
    pub open spec fn walkable(self) -> bool {
        self is Floor || self is Door || self is Empty
    }

    /// The map glyph of a tile.
    pub open spec fn glyph(self) -> char {
        match self {
            TileType::Floor => '.',
            TileType::Wall => '#',
            TileType::Door => '+',
            TileType::Stairs => '>',
            TileType::Empty => ' ',
        }
    }

    pub fn get_display_char(&self) -> (glyph: char)
        ensures
            glyph == self.glyph(),
    {
        match self {
            TileType::Floor => '.',
            TileType::Wall => '#',
            TileType::Door => '+',
            TileType::Stairs => '>',
            TileType::Empty => ' ',
        }
    }
}

/// An item that lies on a tile and belongs to nobody.
#[derive(Debug)]
pub struct WorldItem {
    pub position: (i32, i32),
    pub item: Item,
}

/// The mathematical value of a [`WorldItem`].
pub struct WorldItemView {
    pub position: (i32, i32),
    pub item: ItemView,
}

impl View for WorldItem {
    type V = WorldItemView;

    open spec fn view(&self) -> WorldItemView {
        WorldItemView { position: self.position, item: self.item@ }
    }
}

impl DeepView for WorldItem {
    type V = WorldItemView;

    open spec fn deep_view(&self) -> WorldItemView {
        self@
    }
}

impl Clone for WorldItem {
    fn clone(&self) -> (copy: WorldItem)
        ensures
            copy@ == self@,
    {
        WorldItem { position: self.position, item: self.item.clone() }
    }
}

impl WorldItem {
    pub fn new(x: i32, y: i32, item: Item) -> (placed: WorldItem)
        ensures
            placed@ == (WorldItemView { position: (x, y), item: item@ }),
    {
        WorldItem { position: (x, y), item }
    }
}

/// Whether `x` and `y` are coordinates that a position can hold.
pub open spec fn is_position(x: int, y: int) -> bool {
    i32::MIN <= x <= i32::MAX && i32::MIN <= y <= i32::MAX
}

/// The condition "lies at `p`" on world items.
pub open spec fn lies_at(p: (i32, i32)) -> spec_fn(WorldItemView) -> bool {
    |w: WorldItemView| w.position == p
}

/// The index of the first item of `items` that lies at `p`, if any does.
pub open spec fn item_at(items: Seq<WorldItemView>, p: (i32, i32)) -> Option<int> {
    first_where(items, lies_at(p))
}

/// The tile at column `x` and row `y` of the plain room that fills a grid of
/// `width` by `height` cells: walls along the border, floor on every seventh
/// diagonal of the interior, empty space elsewhere.
pub open spec fn room_tile(width: int, height: int, x: int, y: int) -> TileType {
    if x == 0 || x == width - 1 || y == 0 || y == height - 1 {
        TileType::Wall
    } else if (x + y) % 7 == 0 {
        TileType::Floor
    } else {
        TileType::Empty
    }
}

/// Column `x` of the plain room.
pub open spec fn room_column(width: int, height: int, x: int) -> Seq<TileType> {
    Seq::new(height as nat, |y: int| room_tile(width, height, x, y))
}

/// The plain room, column by column.
pub open spec fn simple_room(width: int, height: int) -> Seq<Seq<TileType>> {
    Seq::new(width as nat, |x: int| room_column(width, height, x))
}

/// The tile grid with the items that lie on it.
#[derive(Debug)]
pub struct GameWorld {
    /// Width and height of the grid.
    pub size: (usize, usize),
    pub current_floor: i32,
    /// The grid, indexed by column and then by row.
    pub tiles: Vec<Vec<TileType>>,
    /// The items that lie in the world, in the order in which they were placed.
    pub items: Vec<WorldItem>,
}

/// The mathematical value of a [`GameWorld`].
pub struct WorldView {
    pub size: (usize, usize),
    pub current_floor: i32,
    pub tiles: Seq<Seq<TileType>>,
    pub items: Seq<WorldItemView>,
}

impl View for GameWorld {
    type V = WorldView;

    open spec fn view(&self) -> WorldView {
        WorldView {
            size: self.size,
            current_floor: self.current_floor,
            tiles: Seq::new(self.tiles@.len(), |x: int| self.tiles@[x]@),
            items: self.items.deep_view(),
        }
    }
}

impl WorldView {
    /// The grid has `size.0` columns of `size.1` tiles each.
    pub open spec fn wf(self) -> bool {
        &&& self.tiles.len() == self.size.0
        &&& forall|x: int| 0 <= x < self.size.0 ==> (#[trigger] self.tiles[x]).len() == self.size.1
    }

    /// Whether `(x, y)` names a cell of the grid.
    pub open spec fn in_bounds(self, x: int, y: int) -> bool {
        0 <= x < self.size.0 && 0 <= y < self.size.1
    }

    /// The tile at `(x, y)`, or `None` outside the grid.
    pub open spec fn tile_at(self, x: int, y: int) -> Option<TileType> {
        if self.in_bounds(x, y) {
            Some(self.tiles[x][y])
        } else {
            None
        }
    }

    /// Whether `(x, y)` is a cell of the grid that can be walked on.
    pub open spec fn walkable(self, x: int, y: int) -> bool {
        self.in_bounds(x, y) && self.tiles[x][y].walkable()
    }

    /// Whether something can step onto `(x, y)`: the coordinates are ones that
    /// a position can hold, and the tile there can be walked on.
    pub open spec fn enterable(self, x: int, y: int) -> bool {
        is_position(x, y) && self.walkable(x, y)
    }

    /// Whether `(x, y)` lies on the outermost ring of the grid.
    pub open spec fn on_border(self, x: int, y: int) -> bool {
        self.in_bounds(x, y) && (x == 0 || x == self.size.0 - 1 || y == 0 || y == self.size.1 - 1)
    }

    /// Whether the grid holds the plain room of its size.
    pub open spec fn is_simple_room(self) -> bool {
        self.tiles == simple_room(self.size.0 as int, self.size.1 as int)
    }

    /// This world with its grid overwritten by the plain room of its size.
    pub open spec fn regenerated(self) -> WorldView {
        WorldView { tiles: simple_room(self.size.0 as int, self.size.1 as int), ..self }
    }

    /// This world with `item` laid down at `p`, after the items already there.
    pub open spec fn with_item(self, p: (i32, i32), item: ItemView) -> WorldView {
        WorldView { items: self.items.push(WorldItemView { position: p, item }), ..self }
    }

    /// This world without the item at index `i`.
    pub open spec fn without_item(self, i: int) -> WorldView {
        WorldView { items: self.items.remove(i), ..self }
    }
}

fn build_room_column(width: usize, height: usize, x: usize) -> (column: Vec<TileType>)
    requires
        x < width,
    ensures
        column@ == room_column(width as int, height as int, x as int),
{
    let mut column: Vec<TileType> = Vec::new();
    let mut y: usize = 0;
    while y < height
        invariant
            x < width,
            y <= height,
            column@.len() == y,
            forall|j: int|
                0 <= j < y ==> #[trigger] column@[j] == room_tile(
                    width as int,
                    height as int,
                    x as int,
                    j,
                ),
        decreases height - y,
    {
        let tile = if x == 0 || x == width - 1 || y == 0 || y == height - 1 {
            TileType::Wall
        } else if (x % 7 + y % 7) % 7 == 0 {
            TileType::Floor
        } else {
            TileType::Empty
        };
        assert(((x % 7 + y % 7) % 7 == 0) == ((x + y) % 7 == 0));
        column.push(tile);
        y += 1;
    }
    assert(column@ =~= room_column(width as int, height as int, x as int));
    column
}

impl GameWorld {
    /// The grid has `size.0` columns of `size.1` tiles each.
    pub open spec fn wf(&self) -> bool {
        self@.wf()
    }

    /// Whether the grid has `size.0` columns of `size.1` tiles each.
    pub fn is_well_formed(&self) -> (well_formed: bool)
        ensures
            well_formed == self.wf(),
    {
        if self.tiles.len() != self.size.0 {
            return false;
        }
        let mut x: usize = 0;
        while x < self.tiles.len()
            invariant
                x <= self.tiles@.len(),
                self.tiles@.len() == self.size.0,
                forall|i: int| 0 <= i < x ==> (#[trigger] self@.tiles[i]).len() == self.size.1,
            decreases self.tiles@.len() - x,
        {
            assert(self@.tiles[x as int] == self.tiles@[x as int]@);
            if self.tiles[x].len() != self.size.1 {
                return false;
            }
            x += 1;
        }
        true
    }

    /// Makes a world of `width` by `height` tiles that holds the plain room and
    /// no items.
    pub fn new(width: usize, height: usize) -> (world: GameWorld)
        ensures
            world@ == (WorldView {
                size: (width, height),
                current_floor: 1,
                tiles: simple_room(width as int, height as int),
                items: Seq::empty(),
            }),
            world.wf(),
    {
        let mut tiles: Vec<Vec<TileType>> = Vec::new();
        let mut x: usize = 0;
        while x < width
            invariant
                x <= width,
                tiles@.len() == x,
                forall|i: int| 0 <= i < x ==> (#[trigger] tiles@[i])@.len() == height,
            decreases width - x,
        {
            let mut column: Vec<TileType> = Vec::new();
            let mut y: usize = 0;
            while y < height
                invariant
                    y <= height,
                    column@.len() == y,
                decreases height - y,
            {
                column.push(TileType::Empty);
                y += 1;
            }
            tiles.push(column);
            x += 1;
        }
        let mut world = GameWorld { size: (width, height), current_floor: 1, tiles, items: Vec::new() };
        world.generate_simple_room();
        assert(world@.items =~= Seq::empty());
        world
    }

    /// Overwrites the grid with the plain room of its size.
    pub fn generate_simple_room(&mut self)
        requires
            old(self).wf(),
        ensures
            final(self)@ == old(self)@.regenerated(),
            final(self).wf(),
            final(self)@.is_simple_room(),
    {
        let width = self.size.0;
        let height = self.size.1;
        let mut x: usize = 0;
        while x < width
            invariant
                x <= width,
                self.size == old(self).size,
                self.size == (width, height),
                self.current_floor == old(self).current_floor,
                self.items == old(self).items,
                self.tiles@.len() == width,
                forall|i: int|
                    0 <= i < x ==> (#[trigger] self.tiles@[i])@ == room_column(
                        width as int,
                        height as int,
                        i,
                    ),
            decreases width - x,
        {
            let column = build_room_column(width, height, x);
            self.tiles.set(x, column);
            x += 1;
        }
        assert(self@.tiles =~= simple_room(width as int, height as int));
    }

    /// The tile at `(x, y)`, or `None` outside the grid.
    pub fn get_tile(&self, x: i32, y: i32) -> (tile: Option<&TileType>)
        requires
            self.wf(),
        ensures
            tile is Some <==> self@.in_bounds(x as int, y as int),
            tile matches Some(t) ==> self@.tile_at(x as int, y as int) == Some(*t),
    {
        if x >= 0 && y >= 0 && (x as usize) < self.size.0 && (y as usize) < self.size.1 {
            assert(self@.tiles[x as int] == self.tiles@[x as int]@);
            Some(&self.tiles[x as usize][y as usize])
        } else {
            None
        }
    }

    /// Whether `(x, y)` is a cell of the grid that can be walked on.
    pub fn is_walkable(&self, x: i32, y: i32) -> (walkable: bool)
        requires
            self.wf(),
        ensures
            walkable == self@.walkable(x as int, y as int),
    {
        match self.get_tile(x, y) {
            Some(TileType::Floor) | Some(TileType::Door) | Some(TileType::Empty) => true,
            _ => false,
        }
    }

    /// Whether something can step onto `(x, y)`.
    pub fn can_enter(&self, x: i64, y: i64) -> (enterable: bool)
        requires
            self.wf(),
        ensures
            enterable == self@.enterable(x as int, y as int),
    {
        if x < i32::MIN as i64 || x > i32::MAX as i64 || y < i32::MIN as i64 || y > i32::MAX as i64 {
            false
        } else {
            self.is_valid_position(x as i32, y as i32) && self.is_walkable(x as i32, y as i32)
        }
    }

    /// The index of the first item that lies at `p`, if any does.
    pub fn find_item_at(&self, p: (i32, i32)) -> (found: Option<usize>)
        ensures
            found matches Some(i) ==> item_at(self@.items, p) == Some(i as int) && i
                < self.items@.len(),
            found is None ==> item_at(self@.items, p) is None,
    {
        let mut i: usize = 0;
        while i < self.items.len()
            invariant
                i <= self.items@.len(),
                forall|j: int| 0 <= j < i ==> !lies_at(p)(#[trigger] self@.items[j]),
            decreases self.items@.len() - i,
        {
            if self.items[i].position.0 == p.0 && self.items[i].position.1 == p.1 {
                proof {
                    assert(self@.items[i as int] == self.items@[i as int]@);
                    assert(is_first_where(self@.items, lies_at(p), i as int));
                    lemma_first_where_found(self@.items, lies_at(p), i as int);
                }
                return Some(i);
            }
            assert(self@.items[i as int] == self.items@[i as int]@);
            i += 1;
        }
        proof {
            lemma_first_where_none(self@.items, lies_at(p));
        }
        None
    }

    /// Whether `(x, y)` names a cell of the grid, whatever the tile.
    pub fn is_valid_position(&self, x: i32, y: i32) -> (valid: bool)
        ensures
            valid == self@.in_bounds(x as int, y as int),
    {
        x >= 0 && y >= 0 && (x as usize) < self.size.0 && (y as usize) < self.size.1
    }
}

impl Clone for GameWorld {
    fn clone(&self) -> (copy: GameWorld)
        ensures
            copy@ == self@,
    {
        let mut tiles: Vec<Vec<TileType>> = Vec::new();
        let mut x: usize = 0;
        while x < self.tiles.len()
            invariant
                x <= self.tiles@.len(),
                tiles@.len() == x,
                forall|i: int| 0 <= i < x ==> (#[trigger] tiles@[i])@ == self.tiles@[i]@,
            decreases self.tiles@.len() - x,
        {
            let source = &self.tiles[x];
            let mut column: Vec<TileType> = Vec::new();
            let mut y: usize = 0;
            while y < source.len()
                invariant
                    y <= source@.len(),
                    column@.len() == y,
                    forall|j: int| 0 <= j < y ==> #[trigger] column@[j] == source@[j],
                decreases source@.len() - y,
            {
                column.push(source[y]);
                y += 1;
            }
            assert(column@ =~= source@);
            tiles.push(column);
            x += 1;
        }
        let mut items: Vec<WorldItem> = Vec::new();
        let mut i: usize = 0;
        while i < self.items.len()
            invariant
                i <= self.items@.len(),
                items@.len() == i,
                forall|j: int| 0 <= j < i ==> (#[trigger] items@[j])@ == self.items@[j]@,
            decreases self.items@.len() - i,
        {
            items.push(self.items[i].clone());
            i += 1;
        }
        let copy = GameWorld { size: self.size, current_floor: self.current_floor, tiles, items };
        assert(copy@.tiles =~= self@.tiles);
        assert(copy@.items =~= self@.items);
        copy
    }
}

impl Default for GameWorld {
    /// The world that a game starts in: the plain room of 50 by 30 tiles.
    fn default() -> (world: GameWorld)
        ensures
            world@ == (WorldView {
                size: (50, 30),
                current_floor: 1,
                tiles: simple_room(50, 30),
                items: Seq::empty(),
            }),
            world.wf(),
    {
        GameWorld::new(50, 30)
    }
}

} // verus!
