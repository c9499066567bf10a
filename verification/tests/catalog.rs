use chrono::Datelike;
use libmarse::auth::{Email, Name, User, UserId};
use libmarse::books::add::add_book;
use libmarse::books::delete::delete_book;
use libmarse::books::owner::{check_owns, owned_library};
use libmarse::books::update::update_book;
use libmarse::books::view::{book_row, list_library_books, view_book, DbBook};
use libmarse::books::{Author, BookId, Genre, NewBook, UpdateBook, Year, BOOK_TAG};
use libmarse::client::{calculate_days_to_lend, days_to_lend, endpoint};
use libmarse::config::{Argon2Params, Environment};
use libmarse::database::{affected, failed, found};
use libmarse::http::{authenticate, status_code, token_cookies};
use libmarse::id::{tag, IdCipher};
use libmarse::lendings::active::{active_lendings, lending, DbLending};
use libmarse::lendings::date::{FIRST_DAY, LAST_DAY};
use libmarse::lendings::lend::{lend_book, lend_book_on};
use libmarse::lendings::{
    return_book, DueDate, LendingDate, LendingId, NewLending, ReturnDate, ReturnRequest,
    LENDING_TAG,
};
use libmarse::libraries::add::add_library;
use libmarse::libraries::delete::delete_library;
use libmarse::libraries::update::update_library;
use libmarse::libraries::view::{
    library_row, list_libraries, list_my_libraries, rating, view_library, DbLibrary,
};
use libmarse::libraries::{
    Address, Currency, DailyRate, Decimal, LibraryId, NewLibrary, OverdueRate, UpdateLibrary,
    LIBRARY_TAG,
};
use libmarse::{Error, ErrorChain};

fn cipher() -> IdCipher {
    IdCipher::new([9u8; 16])
}

fn internal(context: &'static str) -> Error {
    Error::Internal(ErrorChain { context })
}

fn money(mantissa: i128) -> Decimal {
    Decimal { mantissa, scale: 2 }
}

#[test]
fn tags_of_the_kinds() {
    assert_eq!(tag("book"), BOOK_TAG);
    assert_eq!(tag("library"), LIBRARY_TAG);
    assert_eq!(tag("lending"), LENDING_TAG);
}

#[test]
fn bounded_texts() {
    assert!(Author::new("a".repeat(50)).is_ok());
    assert_eq!(
        Author::new("a".repeat(51)).err(),
        Some(Error::Validation("author name is too long"))
    );
    assert!(Genre::new("g".repeat(50)).is_ok());
    assert_eq!(Genre::new("g".repeat(51)).err(), Some(Error::Validation("genre is too long")));
    assert!(Address::new("x".repeat(100)).is_ok());
    assert_eq!(
        Address::new("x".repeat(101)).err(),
        Some(Error::Validation("address is too long"))
    );
    assert_eq!(Author::default().as_str(), "");
    assert_eq!(Genre::new("Novel".to_owned()).unwrap().clone().as_str(), "Novel");
}

#[test]
fn years_end_in_2024() {
    assert_eq!(Year::new(2024).unwrap().get(), 2024);
    assert_eq!(Year::new(-300).unwrap().get(), -300);
    assert_eq!(Year::new(2025).err(), Some(Error::Validation("year cannot be from the future")));
    assert_eq!(Year::default().get(), 0);
}

#[test]
fn currencies() {
    for code in ["UAH", "USD", "EUR"] {
        assert_eq!(Currency::new(code.to_owned()).unwrap().as_str(), code);
    }
    for code in ["", "usd", "GBP", "USDX", "US"] {
        assert_eq!(
            Currency::new(code.to_owned()).err(),
            Some(Error::Validation("unsupported currency"))
        );
    }
}

#[test]
fn rates_take_any_number() {
    assert_eq!(DailyRate::new(money(150)), Ok(DailyRate(money(150))));
    assert_eq!(OverdueRate::new(money(-1)), Ok(OverdueRate(money(-1))));
}

#[test]
fn storage_answers() {
    assert_eq!(affected(0), Err(Error::NotFound));
    assert_eq!(affected(1), Ok(()));
    assert_eq!(found(Some(5)), Ok(5));
    assert_eq!(found::<i32>(None), Err(Error::NotFound));
    assert_eq!(failed(), internal("execute sql"));
}

#[test]
fn owner_and_library_rows() {
    let c = cipher();
    let owner = UserId::new(1, &c);
    let library = LibraryId::new(2, &c);
    assert_eq!(owned_library(owner, library, &c), Ok((1, 2)));
    let no_owner = UserId::from_str("abc").unwrap();
    let no_library = LibraryId::from_str("abc").unwrap();
    assert_eq!(owned_library(no_owner, library, &c), Err(Error::LoggedOff));
    assert_eq!(owned_library(owner, no_library, &c), Err(Error::NotFound));
    assert_eq!(owned_library(no_owner, no_library, &c), Err(Error::LoggedOff));
    assert_eq!(check_owns(true), Ok(()));
    assert_eq!(check_owns(false), Err(Error::Unauthorized));
}

fn new_book(year: i16, name: &str, genre: &str, author: &str) -> NewBook {
    NewBook {
        year,
        name: name.to_owned(),
        genre: genre.to_owned(),
        author: author.to_owned(),
    }
}

#[test]
fn book_is_added_or_refused() {
    let book = add_book(7, new_book(1999, "Name", "Genre", "Author")).unwrap();
    assert_eq!(book.library_id, 7);
    assert_eq!(book.year.get(), 1999);
    assert_eq!(book.name.as_str(), "Name");
    assert_eq!(book.genre.as_str(), "Genre");
    assert_eq!(book.author.as_str(), "Author");
    let long = "a".repeat(51);
    assert_eq!(
        add_book(7, new_book(2025, &long, &long, &long)).err(),
        Some(Error::Validation("year cannot be from the future"))
    );
    assert_eq!(
        add_book(7, new_book(2000, &long, &long, &long)).err(),
        Some(Error::Validation("name is too long"))
    );
    assert_eq!(
        add_book(7, new_book(2000, "n", &long, &long)).err(),
        Some(Error::Validation("genre is too long"))
    );
    assert_eq!(
        add_book(7, new_book(2000, "n", "g", &long)).err(),
        Some(Error::Validation("author name is too long"))
    );
}

#[test]
fn book_is_changed_or_refused() {
    let c = cipher();
    let id = BookId::new(5, &c);
    let details = UpdateBook {
        year: 2001,
        name: "N".to_owned(),
        genre: "G".to_owned(),
        author: "A".to_owned(),
    };
    let book = update_book(id, details, &c).unwrap();
    assert_eq!(book.id, 5);
    assert_eq!(book.year.get(), 2001);
    let bad = UpdateBook {
        year: 2030,
        name: "N".to_owned(),
        genre: "G".to_owned(),
        author: "A".to_owned(),
    };
    assert_eq!(
        update_book(id, bad, &c).err(),
        Some(Error::Validation("year cannot be from the future"))
    );
    let bad = UpdateBook {
        year: 2030,
        name: "N".to_owned(),
        genre: "G".to_owned(),
        author: "A".to_owned(),
    };
    assert_eq!(
        update_book(BookId::from_str("zz").unwrap(), bad, &c).err(),
        Some(Error::NotFound)
    );
    assert_eq!(delete_book(id, &c), Ok(5));
    assert_eq!(delete_book(BookId::from_str("zz").unwrap(), &c), Err(Error::NotFound));
}

fn stored_book(id: i64) -> DbBook {
    DbBook {
        id,
        year: Year::new(1984).unwrap(),
        name: Name::new("Book".to_owned()).unwrap(),
        genre: Genre::new("Novel".to_owned()).unwrap(),
        author: Author::new("Writer".to_owned()).unwrap(),
    }
}

#[test]
fn books_are_shown() {
    let c = cipher();
    let rows = vec![stored_book(3), stored_book(4)];
    let books = list_library_books(&rows, &c);
    assert_eq!(books.len(), 2);
    assert_eq!(books[0].id.sql_id(&c), Ok(3));
    assert_eq!(books[1].id.sql_id(&c), Ok(4));
    assert_eq!(books[1].name.as_str(), "Book");
    assert_eq!(books[1].year.get(), 1984);
    let book = view_book(Some(stored_book(8)), &c).unwrap();
    assert_eq!(book.id.sql_id(&c), Ok(8));
    assert_eq!(book.author.as_str(), "Writer");
    assert_eq!(view_book(None, &c).err(), Some(Error::NotFound));
    let library = LibraryId::new(1, &c);
    assert_eq!(book_row(library, BookId::new(8, &c), &c), Ok((1, 8)));
    assert_eq!(
        book_row(library, BookId::from_str("q").unwrap(), &c),
        Err(Error::NotFound)
    );
    assert_eq!(
        book_row(LibraryId::from_str("q").unwrap(), BookId::new(8, &c), &c),
        Err(Error::NotFound)
    );
    assert_eq!(libmarse::books::view::library_row(library, &c), Ok(1));
}

fn new_library(owner: UserId, name: &str, address: &str, currency: &str) -> NewLibrary {
    NewLibrary {
        owner_id: owner,
        name: name.to_owned(),
        address: address.to_owned(),
        daily_rate: money(100),
        overdue_rate: money(250),
        currency: currency.to_owned(),
    }
}

#[test]
fn library_is_added_or_refused() {
    let c = cipher();
    let owner = UserId::new(4, &c);
    let library = add_library(new_library(owner, "Central", "Main street 1", "EUR"), &c).unwrap();
    assert_eq!(library.owner_id, 4);
    assert_eq!(library.name.as_str(), "Central");
    assert_eq!(library.address.as_str(), "Main street 1");
    assert_eq!(library.daily_rate, DailyRate(money(100)));
    assert_eq!(library.overdue_rate, OverdueRate(money(250)));
    assert_eq!(library.currency.as_str(), "EUR");
    let long = "a".repeat(101);
    assert_eq!(
        add_library(new_library(owner, &long, &long, "XXX"), &c).err(),
        Some(Error::Validation("name is too long"))
    );
    assert_eq!(
        add_library(new_library(owner, "n", &long, "XXX"), &c).err(),
        Some(Error::Validation("address is too long"))
    );
    assert_eq!(
        add_library(new_library(owner, "n", "a", "XXX"), &c).err(),
        Some(Error::Validation("unsupported currency"))
    );
    let stranger = UserId::from_str("abc").unwrap();
    assert_eq!(
        add_library(new_library(stranger, &long, "a", "EUR"), &c).err(),
        Some(Error::NotFound)
    );
}

#[test]
fn library_is_changed_or_removed() {
    let c = cipher();
    let owner = UserId::new(4, &c);
    let id = LibraryId::new(6, &c);
    let details = UpdateLibrary {
        owner_id: owner,
        name: "Central".to_owned(),
        address: "Main street 1".to_owned(),
        daily_rate: money(1),
        overdue_rate: money(2),
        currency: "UAH".to_owned(),
    };
    let library = update_library(id, details, &c).unwrap();
    assert_eq!((library.id, library.owner_id), (6, 4));
    assert_eq!(library.currency.as_str(), "UAH");
    let details = UpdateLibrary {
        owner_id: owner,
        name: "Central".to_owned(),
        address: "Main street 1".to_owned(),
        daily_rate: money(1),
        overdue_rate: money(2),
        currency: "UAH".to_owned(),
    };
    assert_eq!(
        update_library(LibraryId::from_str("x").unwrap(), details, &c).err(),
        Some(Error::NotFound)
    );
    assert_eq!(delete_library(Ok(()), id, &c), Ok(6));
    assert_eq!(delete_library(Err(Error::Unauthorized), id, &c), Err(Error::LoggedOff));
    assert_eq!(delete_library(Err(internal("execute sql")), id, &c), Err(Error::LoggedOff));
    assert_eq!(
        delete_library(Ok(()), LibraryId::from_str("x").unwrap(), &c),
        Err(Error::NotFound)
    );
}

fn stored_library(id: i64) -> DbLibrary {
    DbLibrary {
        id,
        name: Name::new("Central".to_owned()).unwrap(),
        address: Address::new("Main street 1".to_owned()).unwrap(),
        daily_rate: DailyRate(money(100)),
        overdue_rate: OverdueRate(money(250)),
        currency: Currency::new("USD".to_owned()).unwrap(),
    }
}

#[test]
fn libraries_are_shown() {
    let c = cipher();
    let rows = vec![stored_library(1), stored_library(2), stored_library(3)];
    let libraries = list_libraries(&rows, &c);
    assert_eq!(libraries.len(), 3);
    assert_eq!(libraries[2].id.sql_id(&c), Ok(3));
    assert_eq!(libraries[0].name.as_str(), "Central");
    assert_eq!(libraries[0].currency.as_str(), "USD");
    assert_eq!(list_my_libraries(UserId::new(5, &c), &c), Ok(5));
    assert_eq!(list_my_libraries(UserId::from_str("q").unwrap(), &c), Err(Error::LoggedOff));
    assert_eq!(library_row(LibraryId::new(5, &c), &c), Ok(5));
    assert_eq!(library_row(LibraryId::from_str("q").unwrap(), &c), Err(Error::NotFound));
    let shown = view_library(stored_library(7), 4, &vec![10, 20, 31], &c).unwrap();
    assert_eq!(shown.id.sql_id(&c), Ok(7));
    assert_eq!(shown.owner_id.sql_id(&c), Ok(4));
    assert_eq!(shown.rating, 23);
    assert_eq!(
        view_library(stored_library(7), 4, &vec![i64::MAX, 1], &c).err(),
        Some(internal("rate library"))
    );
}

#[test]
fn rating_is_mean_plus_count() {
    assert_eq!(rating(&vec![]), Some(0));
    assert_eq!(rating(&vec![14]), Some(15));
    assert_eq!(rating(&vec![10, 20, 31]), Some(23));
    assert_eq!(rating(&vec![1, 2]), Some(3));
    assert_eq!(rating(&vec![-7, 0]), Some(-1));
    assert_eq!(rating(&vec![-1, 0]), Some(2));
    assert_eq!(rating(&vec![i64::MAX]), None);
    assert_eq!(rating(&vec![i64::MAX, 1]), None);
    assert_eq!(rating(&vec![i64::MIN, -1]), None);
    assert_eq!(rating(&vec![i64::MAX - 1]), Some(i64::MAX));
    assert_eq!(rating(&vec![i64::MAX - 2, 0]), Some((i64::MAX - 2) / 2 + 2));
}

#[test]
fn lending_dates() {
    assert_eq!(LendingDate::new_on(100, 100).unwrap().day(), 100);
    assert_eq!(LendingDate::new_on(99, 100).unwrap().day(), 99);
    assert_eq!(
        LendingDate::new_on(101, 100).err(),
        Some(Error::Validation("cannot lend books from the future"))
    );
    let today = ReturnDate::today().0;
    assert!(today > 739_000 && today < 800_000);
    assert!(LendingDate::new(today).is_ok());
    assert!(LendingDate::new(today - 1).is_ok());
    assert_eq!(
        LendingDate::new(today + 2).err(),
        Some(Error::Validation("cannot lend books from the future"))
    );
}

#[test]
fn due_dates() {
    let lent_on = LendingDate::from_stored(738_000);
    let due = DueDate::new(lent_on, 14).unwrap();
    assert_eq!(due.day(), 738_014);
    assert_eq!(due.lent_for(lent_on), 14);
    assert_eq!(DueDate::new(lent_on, 0).unwrap().day(), 738_000);
    assert_eq!(DueDate::new(lent_on, u64::MAX), None);
    assert_eq!(DueDate::new(lent_on, 200_000_000), None);
    assert_eq!(DueDate::new(LendingDate::from_stored(i32::MAX), 1), None);
    assert_eq!(DueDate::from_stored(5).lent_for(LendingDate::from_stored(9)), -4);
    assert_eq!(
        DueDate::from_stored(i32::MAX).lent_for(LendingDate::from_stored(i32::MIN)),
        i32::MAX as i64 - i32::MIN as i64
    );
    let leap = DueDate::new(LendingDate::from_stored(738_944), 2).unwrap();
    assert_eq!(leap.day(), 738_946);
}

#[test]
fn book_is_lent_or_refused() {
    let c = cipher();
    let lendee = UserId::new(11, &c);
    let book = BookId::new(12, &c);
    let request = |lendee_id, book_id, lent_on, lent_for| NewLending {
        lendee_id,
        book_id,
        lent_on,
        lent_for,
    };
    let stored = lend_book_on(request(lendee, book, 738_000, 14), &c, 738_000).unwrap();
    assert_eq!((stored.book_id, stored.lendee_id), (12, 11));
    assert_eq!(stored.lent_on.day(), 738_000);
    assert_eq!(stored.due.day(), 738_014);
    assert_eq!(
        lend_book_on(request(lendee, book, 738_001, 14), &c, 738_000).err(),
        Some(Error::Validation("cannot lend books from the future"))
    );
    assert_eq!(
        lend_book_on(request(lendee, book, 738_000, u64::MAX), &c, 738_000).err(),
        Some(internal("compute due date"))
    );
    let nobody = UserId::from_str("abc").unwrap();
    let nothing = BookId::from_str("abc").unwrap();
    assert_eq!(
        lend_book_on(request(nobody, nothing, 738_001, 14), &c, 738_000).err(),
        Some(Error::LoggedOff)
    );
    assert_eq!(
        lend_book_on(request(lendee, nothing, 738_001, 14), &c, 738_000).err(),
        Some(Error::NotFound)
    );
    let today = ReturnDate::today().0;
    assert!(lend_book(request(lendee, book, today - 3, 7), &c).is_ok());
    assert!(lend_book(request(lendee, book, today + 3, 7), &c).is_err());
}

#[test]
fn book_is_returned_today() {
    let c = cipher();
    let (row, day) = return_book(ReturnRequest { book_id: BookId::new(12, &c) }, &c).unwrap();
    assert_eq!(row, 12);
    assert_eq!(day, ReturnDate::today());
    assert_eq!(
        return_book(ReturnRequest { book_id: BookId::from_str("x").unwrap() }, &c).err(),
        Some(Error::NotFound)
    );
}

#[test]
fn active_lendings_are_shown() {
    let c = cipher();
    let rows = vec![
        DbLending {
            id: 1,
            book_id: 2,
            lendee_id: 3,
            lent_on: LendingDate::from_stored(10),
            due: DueDate::from_stored(20),
        },
        DbLending {
            id: 4,
            book_id: 5,
            lendee_id: 6,
            lent_on: LendingDate::from_stored(11),
            due: DueDate::from_stored(21),
        },
    ];
    let shown = active_lendings(&rows, &c);
    assert_eq!(shown.len(), 2);
    assert_eq!(shown[0].id.sql_id(&c), Ok(1));
    assert_eq!(shown[0].book_id.sql_id(&c), Ok(2));
    assert_eq!(shown[0].lendee_id.sql_id(&c), Ok(3));
    assert_eq!(shown[1].id.sql_id(&c), Ok(4));
    assert_eq!(shown[1].due.day(), 21);
    assert_ne!(shown[0].id.to_string(), LendingId::new(2, &c).to_string());
    let book = view_book(Some(stored_book(2)), &c).unwrap();
    let lendee = User {
        id: shown[0].lendee_id,
        name: Name::default(),
        email: Email::new("a@b.co".to_owned()).unwrap(),
    };
    let full = lending(shown[0], book, lendee);
    assert_eq!(full.id.sql_id(&c), Ok(1));
    assert_eq!(full.book.id.sql_id(&c), Ok(2));
    assert_eq!(full.lendee.email.as_str(), "a@b.co");
    assert_eq!(full.lent_on.day(), 10);
}

#[test]
fn days_to_lend_by_score() {
    assert_eq!(days_to_lend(0), 14);
    assert_eq!(days_to_lend(4), 10);
    assert_eq!(days_to_lend(5), 2);
    assert_eq!(days_to_lend(7), 2);
    assert_eq!(days_to_lend(8), 1);
    assert_eq!(days_to_lend(13), 1);
    assert_eq!(days_to_lend(14), 5);
    assert_eq!(days_to_lend(30), 8);
    assert_eq!(days_to_lend(u64::MAX), ((u64::MAX as u128 + 14) / 5) as u64);
    assert_eq!(calculate_days_to_lend(Some(4)), 10);
    for _ in 0..50 {
        let days = calculate_days_to_lend(None);
        assert!(days >= 1 && days <= 14);
    }
    assert_eq!(endpoint("http://localhost:8080", "/lendings/new"), "http://localhost:8080/lendings/new");
}

#[test]
fn statuses_and_cookies() {
    assert_eq!(status_code(&Error::Validation("x")), 422);
    assert_eq!(status_code(&Error::AccountExists), 409);
    assert_eq!(status_code(&Error::LoggedOff), 401);
    assert_eq!(status_code(&Error::InvalidCredentials), 401);
    assert_eq!(status_code(&Error::Unauthorized), 403);
    assert_eq!(status_code(&Error::NotFound), 404);
    assert_eq!(status_code(&internal("x")), 500);
    assert_eq!(Error::Validation("why").message(), "why");
    assert_eq!(Error::AccountExists.message(), "account already exists");
    assert_eq!(internal("x").message(), "an unexpected error occurred");
    let pair = libmarse::auth::TokenPair {
        access_token: "a".to_owned(),
        refresh_token: "r".to_owned(),
    };
    let (access, refresh) = token_cookies(pair);
    assert_eq!((access.name, access.value.as_str(), access.path), ("access-token", "a", "/"));
    assert_eq!(
        (refresh.name, refresh.value.as_str(), refresh.path),
        ("refresh-token", "r", "/auth/refresh")
    );
    assert!(access.http_only && access.same_site_none && refresh.http_only);
    let config = libmarse::config::JwtConfig {
        key: "k".to_owned(),
        access_ttl: 60,
        refresh_ttl: 60,
    };
    assert_eq!(authenticate(None, &config).err(), Some(Error::LoggedOff));
    assert_eq!(authenticate(Some("junk"), &config).err(), Some(Error::LoggedOff));
    let c = cipher();
    let token = libmarse::auth::token::create_access_token(UserId::new(3, &c), &config).unwrap();
    assert_eq!(authenticate(Some(&token), &config).unwrap().sql_id(&c), Ok(3));
}

#[test]
fn environments_and_costs() {
    assert_eq!(Environment::from_str("development"), Some(Environment::Development));
    assert_eq!(Environment::from_str("production"), Some(Environment::Production));
    assert_eq!(Environment::from_str("Production"), None);
    assert_eq!(Environment::from_str(""), None);
    assert_eq!(Environment::Development.as_str(), "development");
    assert_eq!(Environment::Production.config_file(), "production.yaml");
    let costs = Argon2Params {
        memory_size: 19_456,
        iterations: 2,
        parallelism_factor: 1,
        output_length: Some(32),
    };
    assert!(costs.is_usable());
    assert!(!Argon2Params { parallelism_factor: 0x100_0000, ..costs }.is_usable());
    assert!(!Argon2Params { memory_size: 7, ..costs }.is_usable());
    assert!(Argon2Params { output_length: Some(4), ..costs }.is_usable());
}

#[test]
fn calendar_ends() {
    assert_eq!(chrono::NaiveDate::MIN.num_days_from_ce(), FIRST_DAY);
    assert_eq!(chrono::NaiveDate::MAX.num_days_from_ce(), LAST_DAY);
    let last = LendingDate::from_stored(LAST_DAY);
    assert_eq!(DueDate::new(last, 0).unwrap().day(), LAST_DAY);
    assert_eq!(DueDate::new(last, 1), None);
    let near = LendingDate::from_stored(LAST_DAY - 400);
    assert_eq!(DueDate::new(near, 400).unwrap().day(), LAST_DAY);
    assert_eq!(DueDate::new(near, 401), None);
    let first = LendingDate::from_stored(FIRST_DAY);
    assert_eq!(DueDate::new(first, 0).unwrap().day(), FIRST_DAY);
    assert_eq!(DueDate::new(first, 1).unwrap().day(), FIRST_DAY + 1);
    let span = (LAST_DAY as i64 - FIRST_DAY as i64) as u64;
    assert_eq!(DueDate::new(first, span).unwrap().day(), LAST_DAY);
    assert_eq!(DueDate::new(first, span + 1), None);
    assert_eq!(DueDate::new(first, i32::MAX as u64), None);
    assert_eq!(DueDate::new(first, i32::MAX as u64 + 1), None);
    assert_eq!(DueDate::new(LendingDate::from_stored(FIRST_DAY - 1), 0), None);
    assert_eq!(DueDate::new(LendingDate::from_stored(FIRST_DAY - 1), 5), None);
    assert_eq!(DueDate::new(LendingDate::from_stored(i32::MIN), 0), None);
    assert_eq!(DueDate::new(LendingDate::from_stored(LAST_DAY + 1), 0), None);
    assert_eq!(DueDate::new(LendingDate::from_stored(0), 365).unwrap().day(), 365);
    assert_eq!(DueDate::new(LendingDate::from_stored(-1), 2).unwrap().day(), 1);
}
