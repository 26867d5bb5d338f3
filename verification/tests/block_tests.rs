use block_breaker_tui::block::{Block, BlockField};
use block_breaker_tui::config::Config;
use block_breaker_tui::random::Generator;

#[test]
fn generator_rolls_are_fixed_by_the_seed() {
    let mut generator = Generator::seeded(0);
    let rolls: Vec<u32> = (0..12).map(|_| generator.roll()).collect();
    assert_eq!(rolls, vec![78, 101, 605, 401, 383, 560, 79, 355, 482, 446, 633, 365]);
    assert_eq!(generator.state(), 6736625987792804572);
    let mut other = Generator::seeded(42);
    let rolls: Vec<u32> = (0..6).map(|_| other.roll()).collect();
    assert_eq!(rolls, vec![568, 225, 412, 630, 680, 26]);
}

#[test]
fn generator_rolls_stay_below_one_thousand() {
    let mut generator = Generator::seeded(u64::MAX);
    for _ in 0..10_000 {
        assert!(generator.roll() < 1000);
    }
}

#[test]
fn block_reads_back() {
    let block = Block::new(2, 3, 4);
    assert_eq!((block.x(), block.y(), block.strength()), (2, 3, 4));
}

#[test]
fn block_field_takes_valid_blocks() {
    let blocks = vec![Block::new(0, 0, 1), Block::new(1, 0, 2), Block::new(0, 1, 3)];
    let field = BlockField::from_blocks(blocks.clone()).unwrap();
    assert_eq!(field.blocks(), &blocks);
    assert_eq!(field.len(), 3);
    assert!(!field.is_empty());
    assert!(BlockField::empty().is_empty());
    assert!(BlockField::from_blocks(Vec::new()).unwrap().is_empty());
}

#[test]
fn block_field_rejects_two_blocks_in_one_cell() {
    let blocks = vec![Block::new(0, 0, 1), Block::new(1, 0, 2), Block::new(0, 0, 3)];
    assert!(BlockField::from_blocks(blocks).is_none());
}

#[test]
fn block_field_rejects_a_block_without_strength() {
    let blocks = vec![Block::new(0, 0, 1), Block::new(1, 0, 0)];
    assert!(BlockField::from_blocks(blocks).is_none());
}

#[test]
fn block_field_finds_a_block_by_its_cell() {
    let field =
        BlockField::from_blocks(vec![Block::new(4, 0, 1), Block::new(1, 2, 2), Block::new(0, 1, 3)]).unwrap();
    assert_eq!(field.find(1, 2), Some(1));
    assert_eq!(field.find(0, 1), Some(2));
    assert_eq!(field.find(2, 1), None);
}

#[test]
fn strike_weakens_a_strong_block() {
    let mut field = BlockField::from_blocks(vec![Block::new(4, 0, 1), Block::new(1, 2, 3)]).unwrap();
    assert!(field.strike(1, 2));
    assert_eq!(field.blocks(), &vec![Block::new(4, 0, 1), Block::new(1, 2, 2)]);
}

#[test]
fn strike_removes_a_block_at_its_last_point_of_strength() {
    let mut field =
        BlockField::from_blocks(vec![Block::new(4, 0, 1), Block::new(1, 2, 1), Block::new(3, 3, 2)]).unwrap();
    assert!(field.strike(1, 2));
    assert_eq!(field.blocks(), &vec![Block::new(4, 0, 1), Block::new(3, 3, 2)]);
    assert_eq!(field.find(1, 2), None);
}

#[test]
fn strike_on_a_free_cell_changes_nothing() {
    let mut field = BlockField::from_blocks(vec![Block::new(4, 0, 1)]).unwrap();
    assert!(!field.strike(0, 4));
    assert_eq!(field.blocks(), &vec![Block::new(4, 0, 1)]);
}

#[test]
fn remove_takes_exactly_one_block() {
    let mut field =
        BlockField::from_blocks(vec![Block::new(4, 0, 1), Block::new(1, 2, 5), Block::new(3, 3, 2)]).unwrap();
    assert_eq!(field.remove(1, 2), Some(Block::new(1, 2, 5)));
    assert_eq!(field.blocks(), &vec![Block::new(4, 0, 1), Block::new(3, 3, 2)]);
    assert_eq!(field.remove(1, 2), None);
    assert_eq!(field.len(), 2);
}

#[test]
fn layout_is_drawn_row_by_row_from_the_seed() {
    let config = Config::new(500, 1, 4, 1).unwrap();
    let mut generator = Generator::seeded(42);
    let field = BlockField::generate(4, 2, &config, &mut generator);
    assert_eq!(
        field.blocks(),
        &vec![
            Block::new(1, 0, 1),
            Block::new(2, 0, 1),
            Block::new(1, 1, 1),
            Block::new(2, 1, 1),
            Block::new(3, 1, 1),
        ]
    );
    assert_eq!(generator.state(), 2812299150962093586);
}

#[test]
fn layout_with_density_one_fills_every_cell() {
    let config = Config::new(1000, 3, 4, 1).unwrap();
    let mut generator = Generator::seeded(5);
    let field = BlockField::generate(3, 1, &config, &mut generator);
    assert_eq!(field.blocks(), &vec![Block::new(0, 0, 3), Block::new(1, 0, 3), Block::new(2, 0, 3)]);
    assert_eq!(generator.state(), 15135621383883345378);
}

#[test]
fn layout_with_density_zero_is_empty_but_still_rolls() {
    let config = Config::new(0, 3, 4, 1).unwrap();
    let mut generator = Generator::seeded(5);
    let field = BlockField::generate(3, 2, &config, &mut generator);
    assert!(field.is_empty());
    assert_eq!(generator.state(), 4779881229076814435);
}

#[test]
fn layout_of_an_empty_grid_is_empty() {
    let config = Config::new(1000, 1, 4, 1).unwrap();
    let mut generator = Generator::seeded(9);
    assert!(BlockField::generate(0, 5, &config, &mut generator).is_empty());
    assert!(BlockField::generate(5, 0, &config, &mut generator).is_empty());
    assert_eq!(generator.state(), 9);
}
