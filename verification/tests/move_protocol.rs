use std::cell::RefCell;
use std::rc::Rc;
use wordlib::store::{InternalError, Read, Store, Transaction, WordLibrary, World, Write};

/// A backend that answers from a script and writes down each call.
struct Scripted {
    name: &'static str,
    fail_at: Option<&'static str>,
    calls: Rc<RefCell<Vec<String>>>,
}

struct ScriptedTransaction {
    name: &'static str,
    fail_at: Option<&'static str>,
    calls: Rc<RefCell<Vec<String>>>,
}

type Failure = InternalError<String>;

fn answer<V>(
    calls: &Rc<RefCell<Vec<String>>>,
    fail_at: Option<&'static str>,
    who: &str,
    call: &str,
    value: V,
) -> Result<V, Failure> {
    let label = format!("{}.{}", who, call);
    calls.borrow_mut().push(label.clone());
    if fail_at == Some(call) {
        Err(InternalError::Unknow(wordlib::store::StoreError {
            message: label,
            code: 7,
            err: None,
        }))
    } else {
        Ok(value)
    }
}

impl Read<World, Failure> for ScriptedTransaction {
    fn get(&self, id: &str) -> Result<World, Failure> {
        if self.fail_at == Some("missing") {
            self.calls.borrow_mut().push(format!("{}.get", self.name));
            return Err(InternalError::NotFound);
        }
        answer(
            &self.calls,
            self.fail_at,
            self.name,
            "get",
            World { name: id.to_owned(), message: String::from("content") },
        )
    }

    fn list(&self, _size: i64) -> Result<Vec<World>, Failure> {
        answer(&self.calls, self.fail_at, self.name, "list", Vec::new())
    }
}

impl Write<World, Failure> for ScriptedTransaction {
    fn insert(&self, word: &World) -> Result<Option<World>, Failure> {
        let call = format!("insert({},{})", word.name, word.message);
        self.calls.borrow_mut().push(format!("{}.{}", self.name, call));
        if self.fail_at == Some("insert") {
            return Err(InternalError::Unknow(wordlib::store::StoreError {
                message: String::from("insert"),
                code: 19,
                err: None,
            }));
        }
        Ok(None)
    }

    fn update(&self, _word: &World) -> Result<Option<World>, Failure> {
        answer(&self.calls, self.fail_at, self.name, "update", None)
    }

    fn delete(&self, word: &str) -> Result<Option<World>, Failure> {
        let call = format!("delete({})", word);
        self.calls.borrow_mut().push(format!("{}.{}", self.name, call));
        if self.fail_at == Some("delete") {
            return Err(InternalError::Unknow(wordlib::store::StoreError {
                message: String::from("delete"),
                code: 5,
                err: None,
            }));
        }
        Ok(None)
    }
}

impl Transaction<World, Failure> for ScriptedTransaction {
    fn rollback(self) -> Result<(), Failure> {
        answer(&self.calls, self.fail_at, self.name, "rollback", ())
    }

    fn commit(self) -> Result<(), Failure> {
        answer(&self.calls, self.fail_at, self.name, "commit", ())
    }
}

impl Read<World, Failure> for Scripted {
    fn get(&self, id: &str) -> Result<World, Failure> {
        answer(
            &self.calls,
            None,
            self.name,
            "get",
            World { name: id.to_owned(), message: String::from("content") },
        )
    }

    fn list(&self, _size: i64) -> Result<Vec<World>, Failure> {
        answer(&self.calls, None, self.name, "list", Vec::new())
    }
}

impl Write<World, Failure> for Scripted {
    fn insert(&self, _word: &World) -> Result<Option<World>, Failure> {
        answer(&self.calls, None, self.name, "insert", None)
    }

    fn update(&self, _word: &World) -> Result<Option<World>, Failure> {
        answer(&self.calls, None, self.name, "update", None)
    }

    fn delete(&self, _word: &str) -> Result<Option<World>, Failure> {
        answer(&self.calls, None, self.name, "delete", None)
    }
}

impl Store<World, Failure, ScriptedTransaction> for Scripted {
    fn begin(&self) -> Result<ScriptedTransaction, Failure> {
        let transaction = ScriptedTransaction {
            name: self.name,
            fail_at: self.fail_at,
            calls: self.calls.clone(),
        };
        answer(&self.calls, self.fail_at, self.name, "begin", transaction)
    }
}

fn library(
    source_fails: Option<&'static str>,
    destination_fails: Option<&'static str>,
) -> (WordLibrary<World, String, ScriptedTransaction>, Rc<RefCell<Vec<String>>>) {
    let calls = Rc::new(RefCell::new(Vec::new()));
    let mut lib = WordLibrary::new();
    lib.register(
        String::from("A"),
        Box::new(Scripted { name: "A", fail_at: source_fails, calls: calls.clone() }),
    );
    lib.register(
        String::from("B"),
        Box::new(Scripted { name: "B", fail_at: destination_fails, calls: calls.clone() }),
    );
    (lib, calls)
}

fn code_of(r: Result<Option<World>, Failure>) -> (String, i32) {
    match r {
        Err(InternalError::Unknow(e)) => (e.message, e.code),
        _ => panic!("the move should fail with the error of a backend"),
    }
}

#[test]
fn move_makes_its_seven_calls_in_order() {
    let (lib, calls) = library(None, None);
    let r = lib.move_to("w1", "A", "B");
    assert!(matches!(r, Ok(None)));
    assert_eq!(
        *calls.borrow(),
        vec![
            "A.begin",
            "A.get",
            "B.begin",
            "B.insert(w1,content)",
            "A.delete(w1)",
            "B.commit",
            "A.commit"
        ]
    );
}

#[test]
fn move_stops_when_the_source_cannot_begin() {
    let (lib, calls) = library(Some("begin"), None);
    let (message, code) = code_of(lib.move_to("w1", "A", "B"));
    assert_eq!(message, "A.begin");
    assert_eq!(code, 7);
    assert_eq!(*calls.borrow(), vec!["A.begin"]);
}

#[test]
fn move_of_a_missing_record_rolls_the_source_back() {
    let (lib, calls) = library(Some("missing"), None);
    let r = lib.move_to("w1", "A", "B");
    assert!(matches!(r, Err(InternalError::NotFound)));
    assert_eq!(*calls.borrow(), vec!["A.begin", "A.get", "A.rollback"]);
}

#[test]
fn move_rolls_the_source_back_when_the_destination_cannot_begin() {
    let (lib, calls) = library(None, Some("begin"));
    let (message, code) = code_of(lib.move_to("w1", "A", "B"));
    assert_eq!(message, "B.begin");
    assert_eq!(code, 7);
    assert_eq!(*calls.borrow(), vec!["A.begin", "A.get", "B.begin", "A.rollback"]);
}

#[test]
fn move_rolls_both_back_when_the_insert_fails() {
    let (lib, calls) = library(None, Some("insert"));
    let (message, code) = code_of(lib.move_to("w1", "A", "B"));
    assert_eq!(message, "insert");
    assert_eq!(code, 19);
    assert_eq!(
        *calls.borrow(),
        vec![
            "A.begin",
            "A.get",
            "B.begin",
            "B.insert(w1,content)",
            "A.rollback",
            "B.rollback"
        ]
    );
}

#[test]
fn move_rolls_both_back_when_the_delete_fails() {
    let (lib, calls) = library(Some("delete"), None);
    let (message, code) = code_of(lib.move_to("w1", "A", "B"));
    assert_eq!(message, "delete");
    assert_eq!(code, 5);
    assert_eq!(
        *calls.borrow(),
        vec![
            "A.begin",
            "A.get",
            "B.begin",
            "B.insert(w1,content)",
            "A.delete(w1)",
            "A.rollback",
            "B.rollback"
        ]
    );
}

#[test]
fn move_rolls_the_source_back_when_the_destination_cannot_commit() {
    let (lib, calls) = library(None, Some("commit"));
    let (message, code) = code_of(lib.move_to("w1", "A", "B"));
    assert_eq!(message, "B.commit");
    assert_eq!(code, 7);
    assert_eq!(
        *calls.borrow(),
        vec![
            "A.begin",
            "A.get",
            "B.begin",
            "B.insert(w1,content)",
            "A.delete(w1)",
            "B.commit",
            "A.rollback"
        ]
    );
}

#[test]
fn move_reports_a_failed_last_commit_and_undoes_nothing() {
    let (lib, calls) = library(Some("commit"), None);
    let (message, code) = code_of(lib.move_to("w1", "A", "B"));
    assert_eq!(message, "A.commit");
    assert_eq!(code, 7);
    assert_eq!(
        *calls.borrow(),
        vec![
            "A.begin",
            "A.get",
            "B.begin",
            "B.insert(w1,content)",
            "A.delete(w1)",
            "B.commit",
            "A.commit"
        ]
    );
}

#[test]
fn move_returns_the_first_error_when_a_rollback_fails_too() {
    let (lib, calls) = library(Some("rollback"), Some("insert"));
    let (message, code) = code_of(lib.move_to("w1", "A", "B"));
    assert_eq!(message, "insert");
    assert_eq!(code, 19);
    assert_eq!(
        *calls.borrow(),
        vec![
            "A.begin",
            "A.get",
            "B.begin",
            "B.insert(w1,content)",
            "A.rollback",
            "B.rollback"
        ]
    );
}

#[test]
fn move_between_unregistered_backends_calls_nothing() {
    let (lib, calls) = library(None, None);
    assert!(matches!(lib.move_to("w1", "A", "C"), Err(InternalError::StoreNotFound)));
    assert!(matches!(lib.move_to("w1", "C", "B"), Err(InternalError::StoreNotFound)));
    assert!(matches!(lib.move_to("w1", "C", "D"), Err(InternalError::StoreNotFound)));
    assert!(calls.borrow().is_empty());
}

#[test]
fn operations_on_an_unregistered_backend_return_store_not_found() {
    let (lib, calls) = library(None, None);
    let word = World { name: String::from("w1"), message: String::from("hello") };
    assert!(matches!(lib.insert(&word, "C"), Err(InternalError::StoreNotFound)));
    assert!(matches!(lib.update(&word, "C"), Err(InternalError::StoreNotFound)));
    assert!(matches!(lib.delete("w1", "C"), Err(InternalError::StoreNotFound)));
    assert!(matches!(lib.get("w1", "C"), Err(InternalError::StoreNotFound)));
    assert!(matches!(lib.list(0, "C"), Err(InternalError::StoreNotFound)));
    assert!(matches!(lib.list(5, ""), Err(InternalError::StoreNotFound)));
    assert!(matches!(lib.get_store("C"), Err(InternalError::StoreNotFound)));
    assert!(calls.borrow().is_empty());
}

#[test]
fn operations_reach_the_backend_of_their_name() {
    let (lib, calls) = library(None, None);
    let word = World { name: String::from("w1"), message: String::from("hello") };
    assert!(matches!(lib.insert(&word, "A"), Ok(None)));
    assert!(matches!(lib.update(&word, "B"), Ok(None)));
    assert!(matches!(lib.delete("w1", "A"), Ok(None)));
    assert_eq!(lib.get("w1", "B").unwrap().name, "w1");
    assert!(lib.list(0, "A").unwrap().is_empty());
    assert_eq!(*calls.borrow(), vec!["A.insert", "B.update", "A.delete", "B.get", "A.list"]);
}

#[test]
fn registering_a_name_again_replaces_the_backend() {
    let (mut lib, calls) = library(None, None);
    lib.register(
        String::from("A"),
        Box::new(Scripted { name: "A2", fail_at: None, calls: calls.clone() }),
    );
    assert!(lib.list(0, "A").is_ok());
    assert_eq!(*calls.borrow(), vec!["A2.list"]);
}
