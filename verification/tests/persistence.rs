use task_board::board::{Board, BoardError};
use task_board::store::{load, load_or_seed, save, StoreRead};
use task_board::task::Task;

fn sample_board() -> Board {
    Board::from_columns(vec![
        vec![Task::new("a", "01.02.03", "1h:0m"), Task::new("b \"quoted\"", "", "")],
        vec![],
        vec![Task::new("c", "tomorrow", "0h:5m")],
    ])
    .unwrap()
}

#[test]
fn save_copies_all_three_columns() {
    let board = sample_board();
    let columns = save(&board);
    assert_eq!(columns.len(), 3);
    assert_eq!(columns[0], vec![Task::new("a", "01.02.03", "1h:0m"), Task::new("b \"quoted\"", "", "")]);
    assert!(columns[1].is_empty());
    assert_eq!(columns[2], vec![Task::new("c", "tomorrow", "0h:5m")]);
}

#[test]
fn load_returns_what_was_saved() {
    let board = sample_board();
    let loaded = load_or_seed(StoreRead::Found(save(&board)), "28.10.26");
    assert_eq!(loaded.board, board);
    assert!(!loaded.write_back);
    assert_eq!(loaded.failure, None);
    let loaded = load(StoreRead::Found(save(&board)));
    assert_eq!(loaded.board, board);
    assert!(!loaded.write_back);
}

#[test]
fn load_of_an_empty_board_returns_it() {
    let loaded = load_or_seed(StoreRead::Found(save(&Board::empty())), "28.10.26");
    assert_eq!(loaded.board, Board::empty());
    assert!(!loaded.write_back);
}

#[test]
fn default_seeding() {
    let first = load_or_seed(StoreRead::Missing, "28.10.26");
    assert!(first.write_back);
    assert_eq!(first.failure, None);
    assert_eq!(first.board.column(0).unwrap().len(), 5);
    assert_eq!(first.board.column(1).unwrap().len(), 0);
    assert_eq!(first.board.column(2).unwrap().len(), 0);
    assert_eq!(first.board, Board::seeded("28.10.26"));
    let second = load_or_seed(StoreRead::Found(save(&first.board)), "29.10.26");
    assert!(!second.write_back);
    assert_eq!(second.board, first.board);
}

#[test]
fn default_seeding_with_todays_date() {
    let first = load(StoreRead::Missing);
    assert!(first.write_back);
    assert_eq!(first.board.column(0).unwrap().len(), 5);
    assert!(first.board.column(1).unwrap().is_empty());
    assert!(first.board.column(2).unwrap().is_empty());
    let date = first.board.task(0, 0).unwrap().date.clone();
    assert_eq!(date.chars().count(), 8);
    assert_eq!(first.board, Board::seeded(&date));
    let second = load(StoreRead::Found(save(&first.board)));
    assert!(!second.write_back);
    assert_eq!(second.board, first.board);
}

#[test]
fn unreadable_store_falls_back_to_the_seed() {
    let loaded = load_or_seed(StoreRead::Unreadable, "01.01.70");
    assert!(loaded.write_back);
    assert_eq!(loaded.failure, Some(BoardError::PersistenceFailure));
    assert_eq!(loaded.board, Board::seeded("01.01.70"));
    let loaded = load(StoreRead::Unreadable);
    assert!(loaded.write_back);
    assert_eq!(loaded.failure, Some(BoardError::PersistenceFailure));
    assert_eq!(loaded.board.column(0).unwrap().len(), 5);
}

#[test]
fn store_without_three_columns_falls_back_to_the_seed() {
    let two = StoreRead::Found(vec![vec![Task::new("a", "", "")], vec![]]);
    let loaded = load_or_seed(two, "01.01.70");
    assert!(loaded.write_back);
    assert_eq!(loaded.failure, Some(BoardError::PersistenceFailure));
    assert_eq!(loaded.board, Board::seeded("01.01.70"));
    let four = StoreRead::Found(vec![vec![], vec![], vec![], vec![]]);
    let loaded = load_or_seed(four, "01.01.70");
    assert!(loaded.write_back);
    assert_eq!(loaded.board, Board::seeded("01.01.70"));
}
