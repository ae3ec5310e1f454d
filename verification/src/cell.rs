//! Cells of the grid: their kind, what the kind implies, and their position.

use vstd::prelude::*;

verus! {

/// A display colour, as handed to whatever paints the state.
#[derive(Clone, Copy, PartialEq, Eq, Structural, Debug)]
pub enum Color {
    Black,
    Red,
    Green,
    Yellow,
    Blue,
    Magenta,
    Cyan,
    Gray,
    White,
    Rgb(u8, u8, u8),
}

/// How a cell reacts to the player.
#[derive(Clone, Copy, PartialEq, Eq, Structural, Debug)]
pub enum CellAccess {
    /// Blocks movement.
    Impassable,
    /// Is collected when the player stands on it.
    Takeable,
    /// Neither blocks nor can be collected.
    Passable,
}

/// What a cell is.
#[derive(Clone, Copy, PartialEq, Eq, Structural, Debug)]
pub enum CellKind {
    SoftArmor,
    HardArmor,
    BluntWeapon,
    EdgedWeapon,
    PointedWeapon,
    RangedWeapon,
    ClosedDoor,
    OpenedDoor,
    Wall,
}

impl CellKind {
    /// Armor and weapons are takeable, a closed door and a wall block, an
    /// opened door lets the player through.
    pub open spec fn spec_access(self) -> CellAccess {
        match self {
            CellKind::SoftArmor | CellKind::HardArmor => CellAccess::Takeable,
            CellKind::BluntWeapon
            | CellKind::EdgedWeapon
            | CellKind::PointedWeapon
            | CellKind::RangedWeapon => CellAccess::Takeable,
            CellKind::ClosedDoor | CellKind::Wall => CellAccess::Impassable,
            CellKind::OpenedDoor => CellAccess::Passable,
        }
    }

    /// The glyph that stands for the kind on the canvas.
    pub open spec fn spec_glyph(self) -> char {
        match self {
            CellKind::SoftArmor => '(',
            CellKind::HardArmor => '[',
            CellKind::BluntWeapon => '\\',
            CellKind::EdgedWeapon => '|',
            CellKind::PointedWeapon => '/',
            CellKind::RangedWeapon => '}',
            CellKind::ClosedDoor => '+',
            CellKind::OpenedDoor => '\'',
            CellKind::Wall => '#',
        }
    }

    /// The display name of the kind.
    pub open spec fn spec_name(self) -> Seq<char> {
        match self {
            CellKind::SoftArmor => "Soft Armor"@,
            CellKind::HardArmor => "Hard Armor"@,
            CellKind::BluntWeapon => "Blunt Weapon"@,
            CellKind::EdgedWeapon => "Edged Weapon"@,
            CellKind::PointedWeapon => "Pointed Weapon"@,
            CellKind::RangedWeapon => "Ranged Weapon"@,
            CellKind::ClosedDoor => "Closed Door"@,
            CellKind::OpenedDoor => "Opened Door"@,
            CellKind::Wall => "Wall"@,
        }
    }

    /// The display colour of the kind: armor cyan, weapons red, doors yellow,
    /// walls gray.
    pub open spec fn spec_color(self) -> Color {
        match self {
            CellKind::SoftArmor | CellKind::HardArmor => Color::Cyan,
            CellKind::BluntWeapon
            | CellKind::EdgedWeapon
            | CellKind::PointedWeapon
            | CellKind::RangedWeapon => Color::Red,
            CellKind::ClosedDoor | CellKind::OpenedDoor => Color::Yellow,
            CellKind::Wall => Color::Gray,
        }
    }

    pub fn access(self) -> (r: CellAccess)
        ensures
            r == self.spec_access(),
    {
        match self {
            CellKind::SoftArmor | CellKind::HardArmor => CellAccess::Takeable,
            CellKind::BluntWeapon
            | CellKind::EdgedWeapon
            | CellKind::PointedWeapon
            | CellKind::RangedWeapon => CellAccess::Takeable,
            CellKind::ClosedDoor | CellKind::Wall => CellAccess::Impassable,
            CellKind::OpenedDoor => CellAccess::Passable,
        }
    }

    pub fn glyph(self) -> (r: char)
        ensures
            r == self.spec_glyph(),
    {
        match self {
            CellKind::SoftArmor => '(',
            CellKind::HardArmor => '[',
            CellKind::BluntWeapon => '\\',
            CellKind::EdgedWeapon => '|',
            CellKind::PointedWeapon => '/',
            CellKind::RangedWeapon => '}',
            CellKind::ClosedDoor => '+',
            CellKind::OpenedDoor => '\'',
            CellKind::Wall => '#',
        }
    }

    /// The glyph as a string of one character, for painters that take text.
    pub fn symbol(self) -> (r: &'static str)
        ensures
            r@ == seq![self.spec_glyph()],
    {
        proof {
            reveal_strlit("(");
            reveal_strlit("[");
            reveal_strlit("\\");
            reveal_strlit("|");
            reveal_strlit("/");
            reveal_strlit("}");
            reveal_strlit("+");
            reveal_strlit("'");
            reveal_strlit("#");
        }
        let r: &'static str = match self {
            CellKind::SoftArmor => "(",
            CellKind::HardArmor => "[",
            CellKind::BluntWeapon => "\\",
            CellKind::EdgedWeapon => "|",
            CellKind::PointedWeapon => "/",
            CellKind::RangedWeapon => "}",
            CellKind::ClosedDoor => "+",
            CellKind::OpenedDoor => "'",
            CellKind::Wall => "#",
        };
        assert(r@ =~= seq![self.spec_glyph()]);
        r
    }

    pub fn name(self) -> (r: &'static str)
        ensures
            r@ == self.spec_name(),
    {
        match self {
            CellKind::SoftArmor => "Soft Armor",
            CellKind::HardArmor => "Hard Armor",
            CellKind::BluntWeapon => "Blunt Weapon",
            CellKind::EdgedWeapon => "Edged Weapon",
            CellKind::PointedWeapon => "Pointed Weapon",
            CellKind::RangedWeapon => "Ranged Weapon",
            CellKind::ClosedDoor => "Closed Door",
            CellKind::OpenedDoor => "Opened Door",
            CellKind::Wall => "Wall",
        }
    }

    pub fn color(self) -> (r: Color)
        ensures
            r == self.spec_color(),
    {
        match self {
            CellKind::SoftArmor | CellKind::HardArmor => Color::Cyan,
            CellKind::BluntWeapon
            | CellKind::EdgedWeapon
            | CellKind::PointedWeapon
            | CellKind::RangedWeapon => Color::Red,
            CellKind::ClosedDoor | CellKind::OpenedDoor => Color::Yellow,
            CellKind::Wall => Color::Gray,
        }
    }
}

/// One of the four ways in which a cell can move, or the player ask to move.
#[derive(Clone, Copy, PartialEq, Eq, Structural, Debug)]
pub enum Direction {
    Up,
    Down,
    Left,
    Right,
}

impl Direction {
    /// The change in `x` of a cell that moves one unit this way.
    pub open spec fn dx(self) -> int {
        match self {
            Direction::Left => -1,
            Direction::Right => 1,
            _ => 0,
        }
    }

    /// The change in `y` of a cell that moves one unit this way.
    pub open spec fn dy(self) -> int {
        match self {
            Direction::Up => -1,
            Direction::Down => 1,
            _ => 0,
        }
    }

    pub open spec fn spec_opposite(self) -> Direction {
        match self {
            Direction::Up => Direction::Down,
            Direction::Down => Direction::Up,
            Direction::Left => Direction::Right,
            Direction::Right => Direction::Left,
        }
    }

    pub fn opposite(self) -> (r: Direction)
        ensures
            r == self.spec_opposite(),
    {
        match self {
            Direction::Up => Direction::Down,
            Direction::Down => Direction::Up,
            Direction::Left => Direction::Right,
            Direction::Right => Direction::Left,
        }
    }
}

/// Whether two coordinates differ by less than one unit. Between whole
/// numbers that is equality.
pub open spec fn near(a: int, b: int) -> bool {
    -1 < a - b < 1
}

/// One object on the grid. Rows are counted downward: a cell that moves down
/// gains one in `y`, one that moves right gains one in `x`.
#[derive(Clone, Copy, PartialEq, Eq, Structural, Debug)]
pub struct GameCell {
    pub x: i32,
    pub y: i32,
    pub kind: CellKind,
}

impl GameCell {
    /// The cell moved by `(dx, dy)`.
    pub open spec fn shifted(self, dx: int, dy: int) -> GameCell
        recommends
            self.can_shift(dx, dy),
    {
        GameCell { x: (self.x + dx) as i32, y: (self.y + dy) as i32, kind: self.kind }
    }

    /// Whether the cell moved by `(dx, dy)` still has coordinates that fit.
    pub open spec fn can_shift(self, dx: int, dy: int) -> bool {
        &&& i32::MIN <= self.x + dx <= i32::MAX
        &&& i32::MIN <= self.y + dy <= i32::MAX
    }

    /// Whether the cell lies in the rectangle from `(x1, y1)` to `(x2, y2)`,
    /// borders included.
    pub open spec fn spec_inside(self, x1: int, y1: int, x2: int, y2: int) -> bool {
        x1 <= self.x <= x2 && y1 <= self.y <= y2
    }

    /// Whether the cell lies within less than one unit of `(px, py)` on both
    /// axes.
    pub open spec fn spec_at(self, px: int, py: int) -> bool {
        near(px, self.x as int) && near(py, self.y as int)
    }

    pub fn new(x: i32, y: i32, kind: CellKind) -> (r: GameCell)
        ensures
            r == (GameCell { x, y, kind }),
    {
        GameCell { x, y, kind }
    }

    pub fn x(&self) -> (r: i32)
        ensures
            r == self.x,
    {
        self.x
    }

    pub fn y(&self) -> (r: i32)
        ensures
            r == self.y,
    {
        self.y
    }

    pub fn kind(&self) -> (r: CellKind)
        ensures
            r == self.kind,
    {
        self.kind
    }

    pub fn access(&self) -> (r: CellAccess)
        ensures
            r == self.kind.spec_access(),
    {
        self.kind.access()
    }

    pub fn name(&self) -> (r: &'static str)
        ensures
            r@ == self.kind.spec_name(),
    {
        self.kind.name()
    }

    pub fn color(&self) -> (r: Color)
        ensures
            r == self.kind.spec_color(),
    {
        self.kind.color()
    }

    pub fn glyph(&self) -> (r: char)
        ensures
            r == self.kind.spec_glyph(),
    {
        self.kind.glyph()
    }

    pub fn symbol(&self) -> (r: &'static str)
        ensures
            r@ == seq![self.kind.spec_glyph()],
    {
        self.kind.symbol()
    }

    pub fn inside(&self, x1: u16, y1: u16, x2: u16, y2: u16) -> (r: bool)
        ensures
            r == self.spec_inside(x1 as int, y1 as int, x2 as int, y2 as int),
    {
        let x: i64 = self.x as i64;
        let y: i64 = self.y as i64;
        x1 as i64 <= x && x <= x2 as i64 && y1 as i64 <= y && y <= y2 as i64
    }

    /// Whether the cell lies within less than one unit of `(px, py)` on both
    /// axes.
    pub fn at(&self, px: i64, py: i64) -> (r: bool)
        ensures
            r == self.spec_at(px as int, py as int),
    {
        px == self.x as i64 && py == self.y as i64
    }

    pub fn move_up(&mut self)
        requires
            old(self).y > i32::MIN,
        ensures
            *final(self) == old(self).shifted(0, -1),
    {
        self.y = self.y - 1;
    }

    pub fn move_down(&mut self)
        requires
            old(self).y < i32::MAX,
        ensures
            *final(self) == old(self).shifted(0, 1),
    {
        self.y = self.y + 1;
    }

    pub fn move_left(&mut self)
        requires
            old(self).x > i32::MIN,
        ensures
            *final(self) == old(self).shifted(-1, 0),
    {
        self.x = self.x - 1;
    }

    pub fn move_right(&mut self)
        requires
            old(self).x < i32::MAX,
        ensures
            *final(self) == old(self).shifted(1, 0),
    {
        self.x = self.x + 1;
    }

    /// Moves the cell one unit in the given direction.
    pub fn step(&mut self, direction: Direction)
        requires
            old(self).can_shift(direction.dx(), direction.dy()),
        ensures
            *final(self) == old(self).shifted(direction.dx(), direction.dy()),
    {
        match direction {
            Direction::Up => self.move_up(),
            Direction::Down => self.move_down(),
            Direction::Left => self.move_left(),
            Direction::Right => self.move_right(),
        }
    }
}

} // verus!
