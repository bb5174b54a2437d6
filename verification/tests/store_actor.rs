use ticket_store::actor::Command;
use ticket_store::actor::Event;
use ticket_store::actor::Response;
use ticket_store::actor::ServerState;
use ticket_store::actor::handle_command;
use ticket_store::actor::server_step;
use ticket_store::data::CreateTicketRequest;
use ticket_store::data::PatchTicketRequest;
use ticket_store::data::TicketDraft;
use ticket_store::data::TicketStatus;
use ticket_store::store::TicketId;
use ticket_store::store::TicketStore;

fn draft(title: &str, description: &str) -> TicketDraft {
    TicketDraft { title: title.to_string(), description: description.to_string() }
}

#[test]
fn scenario_two_inserts_then_lookups() {
    // The full round: insert "A", insert "B", read back id 1, miss on id 99.
    // A queue capacity (say a launch with capacity 4) shapes only when senders
    // block, never which replies they get.
    let mut store = TicketStore::new();
    let r = handle_command(&mut store, Command::Insert { draft: draft("A", "d1") });
    assert_eq!(r, Response::Inserted(TicketId(1)));
    let r = handle_command(&mut store, Command::Insert { draft: draft("B", "d2") });
    assert_eq!(r, Response::Inserted(TicketId(2)));
    match handle_command(&mut store, Command::Get { id: TicketId(1) }) {
        Response::Found(Some(t)) => {
            assert_eq!(t.id, TicketId(1));
            assert_eq!(t.title, "A");
            assert_eq!(t.description, "d1");
            assert_eq!(t.status, TicketStatus::Open);
        }
        other => panic!("expected the first ticket, got {:?}", other),
    }
    let r = handle_command(&mut store, Command::Get { id: TicketId(99) });
    assert_eq!(r, Response::Found(None));
}

#[test]
fn insert_returns_distinct_ids() {
    let mut store = TicketStore::new();
    let mut ids = Vec::new();
    for k in 0..5u64 {
        let title = format!("t{}", k);
        ids.push(store.add_ticket(draft(&title, "d")));
    }
    for i in 0..ids.len() {
        for j in 0..ids.len() {
            if i != j {
                assert_ne!(ids[i], ids[j]);
            }
        }
    }
}

#[test]
fn insert_then_get_round_trip() {
    let mut store = TicketStore::new();
    let id = store.add_ticket(draft("fix the door", "it squeaks"));
    let t = store.get(id).expect("a just-inserted ticket must be present");
    assert_eq!(t.id, id);
    assert_eq!(t.title, "fix the door");
    assert_eq!(t.description, "it squeaks");
    assert_eq!(t.status, TicketStatus::Open);
}

#[test]
fn get_of_unknown_id_is_absent() {
    let mut store = TicketStore::new();
    assert!(store.get(TicketId(0)).is_none());
    assert!(store.get(TicketId(1)).is_none());
    store.add_ticket(draft("a", "b"));
    assert!(store.get(TicketId(2)).is_none());
    assert!(store.get(TicketId(u64::MAX)).is_none());
}

#[test]
fn sequential_inserts_kept_in_order() {
    let mut store = TicketStore::new();
    let first = store.add_ticket(draft("first", "d1"));
    let second = store.add_ticket(draft("second", "d2"));
    assert!(first.0 < second.0);
    assert_eq!(store.get(first).unwrap().title, "first");
    assert_eq!(store.get(second).unwrap().title, "second");
}

#[test]
fn many_inserts_complete_exactly_once() {
    // Every draft lands exactly once: the store grows by one per insert and
    // each returned id leads back to its own draft.
    let n: u64 = 100;
    let mut store = TicketStore::new();
    let mut ids = Vec::new();
    for k in 0..n {
        let title = format!("ticket {}", k);
        ids.push(store.add_ticket(draft(&title, "d")));
    }
    assert_eq!(store.len(), n as usize);
    for k in 0..n {
        let t = store.get(ids[k as usize]).unwrap();
        assert_eq!(t.title, format!("ticket {}", k));
    }
}

#[test]
fn server_keeps_running_on_commands() {
    let mut store = TicketStore::new();
    let (state, resp) = server_step(
        ServerState::Running,
        &mut store,
        Event::Received(Command::Insert { draft: draft("a", "b") }),
    );
    assert_eq!(state, ServerState::Running);
    assert_eq!(resp, Some(Response::Inserted(TicketId(1))));
}

#[test]
fn closed_queue_terminates_without_mutation() {
    let mut store = TicketStore::new();
    store.add_ticket(draft("a", "b"));
    let before = store.len();
    let (state, resp) = server_step(ServerState::Running, &mut store, Event::Closed);
    assert_eq!(state, ServerState::Terminated);
    assert_eq!(resp, None);
    assert_eq!(store.len(), before);
}

#[test]
fn create_request_becomes_draft() {
    let req = CreateTicketRequest {
        title: "title".to_string(),
        description: "description".to_string(),
    };
    let d = req.into_draft();
    assert_eq!(d.title, "title");
    assert_eq!(d.description, "description");
}

#[test]
fn patch_replaces_only_given_fields() {
    let mut store = TicketStore::new();
    let id = store.add_ticket(draft("old title", "old description"));
    let mut t = handle_command(&mut store, Command::Get { id });
    let mut ticket = match t {
        Response::Found(Some(ticket)) => ticket,
        _ => panic!("ticket must be present"),
    };
    ticket.apply_patch(PatchTicketRequest {
        title: Some("new title".to_string()),
        description: None,
        status: Some(TicketStatus::InProgress),
    });
    assert_eq!(ticket.id, id);
    assert_eq!(ticket.title, "new title");
    assert_eq!(ticket.description, "old description");
    assert_eq!(ticket.status, TicketStatus::InProgress);
    t = handle_command(&mut store, Command::Get { id });
    match t {
        Response::Found(Some(stored)) => assert_eq!(stored.title, "old title"),
        _ => panic!("the store itself stays unchanged by a patch of a copy"),
    }
}

#[test]
fn patch_of_nothing_changes_nothing() {
    let mut ticket = ticket_store::data::Ticket {
        id: TicketId(7),
        title: "t".to_string(),
        description: "d".to_string(),
        status: TicketStatus::Closed,
    };
    ticket.apply_patch(PatchTicketRequest { title: None, description: None, status: None });
    assert_eq!(ticket.id, TicketId(7));
    assert_eq!(ticket.title, "t");
    assert_eq!(ticket.description, "d");
    assert_eq!(ticket.status, TicketStatus::Closed);
}
