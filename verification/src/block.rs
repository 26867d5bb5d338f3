use crate::config::Config;
use crate::random::{spec_roll, state_after, Generator};
use vstd::arithmetic::div_mod::{lemma_fundamental_div_mod_converse, lemma_multiply_divide_lt};
use vstd::prelude::*;

verus! {

/// A destructible block: the cell it fills and the hits it still
/// withstands.
#[derive(Clone, Copy, Debug, PartialEq, Eq, Structural)]
pub struct Block {
    pub x: u16,
    pub y: u16,
    pub strength: u16,
}

impl Block {
    pub fn new(x: u16, y: u16, strength: u16) -> (block: Block)
        ensures
            block == (Block { x, y, strength }),
    {
        Block { x, y, strength }
    }

    pub fn x(&self) -> (x: u16)
        ensures
            x == self.x,
    {
        self.x
    }

    pub fn y(&self) -> (y: u16)
        ensures
            y == self.y,
    {
        self.y
    }

    pub fn strength(&self) -> (strength: u16)
        ensures
            strength == self.strength,
    {
        self.strength
    }

    /// Whether the block fills the cell `(x, y)`.
    pub open spec fn at(self, x: int, y: int) -> bool {
        self.x == x && self.y == y
    }

    /// The block after one hit that it survives.
    pub open spec fn weakened(self) -> Block {
        Block { strength: (self.strength - 1) as u16, ..self }
    }
}

pub open spec fn same_cell(a: Block, b: Block) -> bool {
    a.x == b.x && a.y == b.y
}

/// What holds of the live blocks at all times: each has strength left,
/// and no two share a cell.
pub open spec fn valid_blocks(blocks: Seq<Block>) -> bool {
    &&& forall|i: int| 0 <= i < blocks.len() ==> (#[trigger] blocks[i]).strength >= 1
    &&& forall|i: int, j: int|
        0 <= i < blocks.len() && 0 <= j < blocks.len() && i != j ==> !same_cell(
            #[trigger] blocks[i],
            #[trigger] blocks[j],
        )
}

/// Whether some live block fills the cell `(x, y)`.
pub open spec fn occupied(blocks: Seq<Block>, x: int, y: int) -> bool {
    exists|i: int| 0 <= i < blocks.len() && (#[trigger] blocks[i]).at(x, y)
}

/// Where in the collection the block of cell `(x, y)` stands. Only
/// meaningful when the cell is occupied; among valid blocks it is the only
/// such place.
pub open spec fn index_at(blocks: Seq<Block>, x: int, y: int) -> int {
    choose|i: int| 0 <= i < blocks.len() && (#[trigger] blocks[i]).at(x, y)
}

/// The blocks without the one in cell `(x, y)`, if there is one.
pub open spec fn without(blocks: Seq<Block>, x: int, y: int) -> Seq<Block> {
    if occupied(blocks, x, y) {
        blocks.remove(index_at(blocks, x, y))
    } else {
        blocks
    }
}

/// The blocks after the ball has hit cell `(x, y)`: the block there loses
/// one point of strength, and leaves when none is left.
pub open spec fn struck(blocks: Seq<Block>, x: int, y: int) -> Seq<Block> {
    if occupied(blocks, x, y) {
        let i = index_at(blocks, x, y);
        if blocks[i].strength <= 1 {
            blocks.remove(i)
        } else {
            blocks.update(i, blocks[i].weakened())
        }
    } else {
        blocks
    }
}

/// Whether the grid cell number `index`, counted row by row, gets a block
/// when the layout is drawn from `seed`: its roll falls below the density.
pub open spec fn cell_filled(seed: int, density: int, index: nat) -> bool {
    spec_roll(state_after(seed, index + 1)) < density
}

/// The blocks that the first `cells` cells of a grid `cols` wide receive,
/// in row-major order. Cell number `n` is column `n % cols` of row
/// `n / cols`.
pub open spec fn layout(cols: int, density: int, strength: int, seed: int, cells: nat) -> Seq<Block>
    decreases cells,
{
    if cells == 0 {
        Seq::empty()
    } else {
        let index = (cells - 1) as nat;
        let before = layout(cols, density, strength, seed, index);
        if cell_filled(seed, density, index) {
            before.push(
                Block {
                    x: (index as int % cols) as u16,
                    y: (index as int / cols) as u16,
                    strength: strength as u16,
                },
            )
        } else {
            before
        }
    }
}

/// The row-major number of a block's cell in a grid `cols` wide.
pub open spec fn cell_number(block: Block, cols: int) -> int {
    block.y * cols + block.x
}

/// A layout is valid: its blocks carry the strength asked for, lie inside
/// the grid, and come in strictly rising cell order, so no two collide.
pub proof fn lemma_layout_valid(cols: int, rows: int, density: int, strength: int, seed: int, cells: nat)
    requires
        0 < cols <= u16::MAX,
        0 <= rows <= u16::MAX,
        cells <= cols * rows,
        1 <= strength <= u16::MAX,
    ensures
        valid_blocks(layout(cols, density, strength, seed, cells)),
        forall|i: int|
            0 <= i < layout(cols, density, strength, seed, cells).len() ==> {
                let block = #[trigger] layout(cols, density, strength, seed, cells)[i];
                &&& block.strength == strength
                &&& block.x < cols
                &&& block.y < rows
                &&& cell_number(block, cols) < cells
            },
        forall|i: int, j: int|
            0 <= i < j < layout(cols, density, strength, seed, cells).len() ==> cell_number(
                #[trigger] layout(cols, density, strength, seed, cells)[i],
                cols,
            ) < cell_number(#[trigger] layout(cols, density, strength, seed, cells)[j], cols),
    decreases cells,
{
    let all = layout(cols, density, strength, seed, cells);
    if cells > 0 {
        let index = (cells - 1) as nat;
        let before = layout(cols, density, strength, seed, index);
        lemma_layout_valid(cols, rows, density, strength, seed, index);
        if cell_filled(seed, density, index) {
            let x = index as int % cols;
            let y = index as int / cols;
            let block = Block { x: x as u16, y: y as u16, strength: strength as u16 };
            assert(0 <= x < cols && y * cols + x == index && 0 <= y < rows) by {
                vstd::arithmetic::div_mod::lemma_fundamental_div_mod(index as int, cols);
                vstd::arithmetic::div_mod::lemma_mod_bound(index as int, cols);
                vstd::arithmetic::div_mod::lemma_div_pos_is_pos(index as int, cols);
                lemma_multiply_divide_lt(index as int, cols, rows);
                assert(cols * y == y * cols) by (nonlinear_arith);
            }
            assert(all == before.push(block));
            assert(cell_number(block, cols) == index);
            assert forall|i: int| 0 <= i < all.len() implies {
                let b = #[trigger] all[i];
                &&& b.strength == strength
                &&& b.x < cols
                &&& b.y < rows
                &&& cell_number(b, cols) < cells
            } by {
                if i < before.len() {
                    assert(all[i] == before[i]);
                }
            }
            assert forall|i: int, j: int| 0 <= i < j < all.len() implies cell_number(
                #[trigger] all[i],
                cols,
            ) < cell_number(#[trigger] all[j], cols) by {
                assert(all[i] == before[i]);
                if j < before.len() {
                    assert(all[j] == before[j]);
                }
            }
        } else {
            assert(all == before);
        }
    }
    assert forall|i: int, j: int|
        0 <= i < all.len() && 0 <= j < all.len() && i != j implies !same_cell(
        #[trigger] all[i],
        #[trigger] all[j],
    ) by {
        if i < j {
            assert(cell_number(all[i], cols) < cell_number(all[j], cols));
        } else {
            assert(cell_number(all[j], cols) < cell_number(all[i], cols));
        }
    }
}

/// Among valid blocks a cell names at most one block, so any block found
/// in the cell is the one that `index_at` speaks of.
pub proof fn lemma_index_at_unique(blocks: Seq<Block>, x: int, y: int, i: int)
    requires
        valid_blocks(blocks),
        0 <= i < blocks.len(),
        blocks[i].at(x, y),
    ensures
        occupied(blocks, x, y),
        index_at(blocks, x, y) == i,
{
    let chosen = index_at(blocks, x, y);
    assert(same_cell(blocks[chosen], blocks[i]));
}

/// Removing a block keeps the rest valid, and frees its cell.
pub proof fn lemma_remove_valid(blocks: Seq<Block>, i: int)
    requires
        valid_blocks(blocks),
        0 <= i < blocks.len(),
    ensures
        valid_blocks(blocks.remove(i)),
        !occupied(blocks.remove(i), blocks[i].x as int, blocks[i].y as int),
{
    let rest = blocks.remove(i);
    assert forall|k: int| 0 <= k < rest.len() implies (#[trigger] rest[k]).strength >= 1 && !rest[k].at(
        blocks[i].x as int,
        blocks[i].y as int,
    ) by {
        let source = if k < i { k } else { k + 1 };
        assert(rest[k] == blocks[source]);
        assert(!same_cell(blocks[source], blocks[i]));
    }
    assert forall|k: int, l: int|
        0 <= k < rest.len() && 0 <= l < rest.len() && k != l implies !same_cell(
        #[trigger] rest[k],
        #[trigger] rest[l],
    ) by {
        let from_k = if k < i { k } else { k + 1 };
        let from_l = if l < i { l } else { l + 1 };
        assert(rest[k] == blocks[from_k]);
        assert(rest[l] == blocks[from_l]);
    }
}

/// Weakening a block that survives the hit keeps the collection valid and
/// every block in its cell.
pub proof fn lemma_weaken_valid(blocks: Seq<Block>, i: int)
    requires
        valid_blocks(blocks),
        0 <= i < blocks.len(),
        blocks[i].strength > 1,
    ensures
        valid_blocks(blocks.update(i, blocks[i].weakened())),
{
    let after = blocks.update(i, blocks[i].weakened());
    assert forall|k: int, l: int|
        0 <= k < after.len() && 0 <= l < after.len() && k != l implies !same_cell(
        #[trigger] after[k],
        #[trigger] after[l],
    ) by {
        assert(same_cell(after[k], blocks[k]));
        assert(same_cell(after[l], blocks[l]));
    }
}

/// A hit keeps the collection valid.
pub proof fn lemma_struck_valid(blocks: Seq<Block>, x: int, y: int)
    requires
        valid_blocks(blocks),
    ensures
        valid_blocks(struck(blocks, x, y)),
{
    if occupied(blocks, x, y) {
        let i = index_at(blocks, x, y);
        if blocks[i].strength <= 1 {
            lemma_remove_valid(blocks, i);
        } else {
            lemma_weaken_valid(blocks, i);
        }
    }
}

/// A hit never brings a block into a cell that was free before.
pub proof fn lemma_struck_adds_nothing(blocks: Seq<Block>, x: int, y: int, cell_x: int, cell_y: int)
    requires
        occupied(struck(blocks, x, y), cell_x, cell_y),
    ensures
        occupied(blocks, cell_x, cell_y),
{
    let after = struck(blocks, x, y);
    let k = index_at(after, cell_x, cell_y);
    assert(0 <= k < after.len() && after[k].at(cell_x, cell_y));
    if occupied(blocks, x, y) {
        let i = index_at(blocks, x, y);
        if blocks[i].strength <= 1 {
            let source = if k < i {
                k
            } else {
                k + 1
            };
            assert(after[k] == blocks[source]);
            assert(blocks[source].at(cell_x, cell_y));
        } else {
            assert(same_cell(after[k], blocks[k]));
            assert(blocks[k].at(cell_x, cell_y));
        }
    }
}

/// A hit on a block that has one point of strength left frees its cell.
pub proof fn lemma_struck_removes_weakest(blocks: Seq<Block>, x: int, y: int)
    requires
        valid_blocks(blocks),
        occupied(blocks, x, y),
        blocks[index_at(blocks, x, y)].strength == 1,
    ensures
        !occupied(struck(blocks, x, y), x, y),
        struck(blocks, x, y).len() == blocks.len() - 1,
{
    let i = index_at(blocks, x, y);
    lemma_remove_valid(blocks, i);
}

/// The live blocks of a game. Order carries no meaning.
pub struct BlockField {
    blocks: Vec<Block>,
}

impl View for BlockField {
    type V = Seq<Block>;

    closed spec fn view(&self) -> Seq<Block> {
        self.blocks@
    }
}

impl BlockField {
    /// Holds of every value of this type.
    #[verifier::type_invariant]
    pub open spec fn well_formed(self) -> bool {
        valid_blocks(self@)
    }

    /// A field without any block.
    pub fn empty() -> (field: BlockField)
        ensures
            field@ == Seq::<Block>::empty(),
    {
        BlockField { blocks: Vec::new() }
    }

    /// Takes over a list of blocks, provided that each has strength left
    /// and that no two of them share a cell.
    pub fn from_blocks(blocks: Vec<Block>) -> (field: Option<BlockField>)
        ensures
            field is Some <==> valid_blocks(blocks@),
            field matches Some(kept) ==> kept@ == blocks@,
    {
        let mut i: usize = 0;
        while i < blocks.len()
            invariant
                i <= blocks.len(),
                forall|k: int| 0 <= k < i ==> (#[trigger] blocks@[k]).strength >= 1,
                forall|k: int, l: int|
                    0 <= k < i && 0 <= l < i && k != l ==> !same_cell(
                        #[trigger] blocks@[k],
                        #[trigger] blocks@[l],
                    ),
            decreases blocks.len() - i,
        {
            if blocks[i].strength == 0 {
                return None;
            }
            let mut j: usize = 0;
            while j < i
                invariant
                    j <= i < blocks.len(),
                    forall|k: int| 0 <= k < j ==> !same_cell(#[trigger] blocks@[k], blocks@[i as int]),
                decreases i - j,
            {
                if blocks[j].x == blocks[i].x && blocks[j].y == blocks[i].y {
                    assert(same_cell(blocks@[j as int], blocks@[i as int]));
                    return None;
                }
                j += 1;
            }
            i += 1;
        }
        Some(BlockField { blocks })
    }

    /// Lays out a grid of `cols` by `rows` cells, row by row. Each cell
    /// rolls the generator once and receives a block of full strength when
    /// the roll falls below the configured density.
    pub fn generate(cols: u16, rows: u16, config: &Config, generator: &mut Generator) -> (field:
        BlockField)
        ensures
            field@ == layout(
                cols as int,
                config@.block_density,
                config@.block_strength,
                old(generator)@,
                (cols * rows) as nat,
            ),
            final(generator)@ == state_after(old(generator)@, (cols * rows) as nat),
            valid_blocks(field@),
    {
        let density = config.block_density();
        let strength = config.block_strength();
        let ghost seed = generator@;
        let mut blocks: Vec<Block> = Vec::new();
        let mut y: u16 = 0;
        while y < rows
            invariant
                y <= rows,
                density == config@.block_density,
                strength == config@.block_strength,
                blocks@ == layout(cols as int, density as int, strength as int, seed, (y * cols) as nat),
                generator@ == state_after(seed, (y * cols) as nat),
            decreases rows - y,
        {
            let mut x: u16 = 0;
            while x < cols
                invariant
                    x <= cols,
                    y < rows,
                    density == config@.block_density,
                    strength == config@.block_strength,
                    blocks@ == layout(
                        cols as int,
                        density as int,
                        strength as int,
                        seed,
                        (y * cols + x) as nat,
                    ),
                    generator@ == state_after(seed, (y * cols + x) as nat),
                decreases cols - x,
            {
                let ghost index = (y * cols + x) as nat;
                let roll = generator.roll();
                proof {
                    assert(y * cols >= 0) by (nonlinear_arith)
                        requires
                            y >= 0,
                            cols >= 0,
                    ;
                    lemma_fundamental_div_mod_converse(index as int, cols as int, y as int, x as int);
                    assert(index + 1 == (y * cols + (x + 1)) as nat);
                }
                if roll < density {
                    blocks.push(Block { x, y, strength });
                }
                x += 1;
            }
            proof {
                assert(y * cols + cols == (y + 1) * cols) by (nonlinear_arith);
            }
            y += 1;
        }
        proof {
            assert(y * cols == cols * rows) by (nonlinear_arith)
                requires
                    y == rows,
            ;
            if cols > 0 {
                lemma_layout_valid(
                    cols as int,
                    rows as int,
                    density as int,
                    strength as int,
                    seed,
                    (cols * rows) as nat,
                );
            } else {
                assert(cols * rows == 0) by (nonlinear_arith)
                    requires
                        cols == 0,
                ;
            }
        }
        BlockField { blocks }
    }

    pub fn len(&self) -> (count: usize)
        ensures
            count == self@.len(),
    {
        self.blocks.len()
    }

    pub fn is_empty(&self) -> (none: bool)
        ensures
            none == (self@.len() == 0),
    {
        self.blocks.len() == 0
    }

    /// The live blocks, for reading. Each call starts from the first.
    pub fn blocks(&self) -> (all: &Vec<Block>)
        ensures
            all@ == self@,
            valid_blocks(self@),
    {
        proof {
            use_type_invariant(self);
        }
        &self.blocks
    }

    /// Looks for the block in cell `(x, y)`.
    pub fn find(&self, x: u16, y: u16) -> (found: Option<usize>)
        ensures
            found is Some <==> occupied(self@, x as int, y as int),
            found matches Some(i) ==> i == index_at(self@, x as int, y as int) && i < self@.len(),
    {
        proof {
            use_type_invariant(self);
        }
        let mut i: usize = 0;
        while i < self.blocks.len()
            invariant
                i <= self.blocks.len(),
                valid_blocks(self.blocks@),
                forall|k: int| 0 <= k < i ==> !(#[trigger] self.blocks@[k]).at(x as int, y as int),
            decreases self.blocks.len() - i,
        {
            if self.blocks[i].x == x && self.blocks[i].y == y {
                proof {
                    lemma_index_at_unique(self.blocks@, x as int, y as int, i as int);
                }
                return Some(i);
            }
            i += 1;
        }
        None
    }

    /// Takes the block in cell `(x, y)` out of the field and hands it
    /// back. Nothing changes when the cell is free.
    pub fn remove(&mut self, x: u16, y: u16) -> (removed: Option<Block>)
        ensures
            final(self)@ == without(old(self)@, x as int, y as int),
            removed == if occupied(old(self)@, x as int, y as int) {
                Some(old(self)@[index_at(old(self)@, x as int, y as int)])
            } else {
                None
            },
            !occupied(final(self)@, x as int, y as int),
            valid_blocks(final(self)@),
    {
        proof {
            use_type_invariant(&*self);
        }
        match self.find(x, y) {
            Some(i) => {
                proof {
                    lemma_remove_valid(self.blocks@, i as int);
                }
                let mut blocks: Vec<Block> = Vec::new();
                std::mem::swap(&mut blocks, &mut self.blocks);
                let block = blocks.remove(i);
                self.blocks = blocks;
                Some(block)
            },
            None => None,
        }
    }

    /// Lets the ball hit cell `(x, y)`. A block there loses one point of
    /// strength and is removed when it has none left. Says whether a block
    /// was hit.
    pub fn strike(&mut self, x: u16, y: u16) -> (hit: bool)
        ensures
            hit == occupied(old(self)@, x as int, y as int),
            final(self)@ == struck(old(self)@, x as int, y as int),
            valid_blocks(final(self)@),
    {
        proof {
            use_type_invariant(&*self);
        }
        match self.find(x, y) {
            Some(i) => {
                let block = self.blocks[i];
                let mut blocks: Vec<Block> = Vec::new();
                std::mem::swap(&mut blocks, &mut self.blocks);
                if block.strength <= 1 {
                    proof {
                        lemma_remove_valid(blocks@, i as int);
                    }
                    blocks.remove(i);
                } else {
                    proof {
                        lemma_weaken_valid(blocks@, i as int);
                    }
                    blocks.set(i, Block { x: block.x, y: block.y, strength: block.strength - 1 });
                }
                self.blocks = blocks;
                true
            },
            None => false,
        }
    }
}

} // verus!
