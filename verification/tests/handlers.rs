use cosmwasm_std::testing::{mock_dependencies, MockApi, MockQuerier, MockStorage};
use cosmwasm_std::{OwnedDeps, StdError, Storage};
use cw_to_do_list::contract::{
    authorize, can_create, can_execute, execute, execute_create_new_entry, execute_delete_entry,
    execute_update_entry, instantiate, is_initialized, query, query_entry, query_list,
    sequence_exhausted, CONTRACT_NAME, CONTRACT_VERSION,
};
use cw_to_do_list::error::{ContractError, ErrorKind};
use cw_to_do_list::msg::{
    EntryResponse, ExecuteMsg, InstantiateMsg, ListResponse, MessageInfo, QueryMsg, QueryResponse,
    Response,
};
use cw_to_do_list::state::{Priority, Status};
use cw_to_do_list::storage::{Store, StoreRef};

type Host = OwnedDeps<MockStorage, MockApi, MockQuerier>;

fn info(sender: &str) -> MessageInfo {
    MessageInfo { sender: sender.to_string() }
}

fn fresh() -> Host {
    let mut host = mock_dependencies();
    let done = instantiate(
        &mut Store { deps: host.as_mut() },
        info("creator"),
        InstantiateMsg { owner: None },
    );
    assert!(done.is_ok());
    host
}

fn create(host: &mut Host, description: &str, priority: Option<Priority>) -> u64 {
    let made = execute_create_new_entry(
        &mut Store { deps: host.as_mut() },
        info("creator"),
        description.to_string(),
        priority,
    );
    match made {
        Ok(Response::EntryCreated { id }) => id,
        other => panic!("unexpected outcome: {:?}", other),
    }
}

fn get(host: &Host, id: u64) -> Result<EntryResponse, StdError> {
    query_entry(&StoreRef { deps: host.as_ref() }, id)
}

fn list(host: &Host, start_after: Option<u64>, limit: Option<u32>) -> Vec<EntryResponse> {
    query_list(&StoreRef { deps: host.as_ref() }, start_after, limit).unwrap().entries
}

fn ids(entries: &[EntryResponse]) -> Vec<u64> {
    entries.iter().map(|entry| entry.id).collect()
}

fn entry(id: u64, description: &str, status: Status, priority: Priority) -> EntryResponse {
    EntryResponse { id, description: description.to_string(), status, priority }
}

fn raw_table() -> cw_storage_plus::Map<'static, u64, (String, u8, u8)> {
    cw_storage_plus::Map::new("list")
}

#[test]
fn instantiate_without_owner_makes_the_sender_owner() {
    let mut host = mock_dependencies();
    let done = instantiate(
        &mut Store { deps: host.as_mut() },
        info("creator"),
        InstantiateMsg { owner: None },
    );
    assert_eq!(done.unwrap(), Response::Instantiated { owner: "creator".to_string() });
    assert!(authorize(&StoreRef { deps: host.as_ref() }, &info("creator")).is_ok());
    assert!(matches!(
        authorize(&StoreRef { deps: host.as_ref() }, &info("someone")),
        Err(ContractError::Unauthorized {})
    ));
}

#[test]
fn instantiate_with_a_valid_owner_uses_it() {
    let mut host = mock_dependencies();
    let done = instantiate(
        &mut Store { deps: host.as_mut() },
        info("creator"),
        InstantiateMsg { owner: Some("specified_owner".to_string()) },
    );
    assert_eq!(done.unwrap(), Response::Instantiated { owner: "specified_owner".to_string() });
    assert!(authorize(&StoreRef { deps: host.as_ref() }, &info("specified_owner")).is_ok());
    assert!(matches!(
        authorize(&StoreRef { deps: host.as_ref() }, &info("creator")),
        Err(ContractError::Unauthorized {})
    ));
}

#[test]
fn instantiate_with_an_invalid_owner_falls_back_to_the_sender() {
    // the mock host takes no address of fewer than three characters
    let mut host = mock_dependencies();
    let done = instantiate(
        &mut Store { deps: host.as_mut() },
        info("creator"),
        InstantiateMsg { owner: Some("ab".to_string()) },
    );
    assert_eq!(done.unwrap(), Response::Instantiated { owner: "creator".to_string() });
    assert!(authorize(&StoreRef { deps: host.as_ref() }, &info("creator")).is_ok());

    // nor one that is not in lower case
    let mut host = mock_dependencies();
    let done = instantiate(
        &mut Store { deps: host.as_mut() },
        info("creator"),
        InstantiateMsg { owner: Some("Specified_Owner".to_string()) },
    );
    assert_eq!(done.unwrap(), Response::Instantiated { owner: "creator".to_string() });
}

#[test]
fn instantiate_starts_the_counter_at_zero() {
    let mut host = fresh();
    assert!(!sequence_exhausted(&StoreRef { deps: host.as_ref() }));
    assert_eq!(create(&mut host, "first", None), 1);
    let counter: cw_storage_plus::Item<u64> = cw_storage_plus::Item::new("entry_seq");
    assert_eq!(counter.load(&host.storage).unwrap(), 1);
}

#[test]
fn instantiate_registers_the_contract() {
    let host = fresh();
    let version = cw2::get_contract_version(&host.storage).unwrap();
    assert_eq!(version.contract, CONTRACT_NAME);
    assert_eq!(version.version, CONTRACT_VERSION);
    assert_eq!(version.contract, "crates.io:cargo-generated-contract");
    assert_eq!(version.version, "0.1.0");
}

#[test]
fn instantiate_a_second_time_fails_and_changes_nothing() {
    let mut host = fresh();
    assert_eq!(create(&mut host, "a", None), 1);
    assert_eq!(create(&mut host, "b", None), 2);
    for sender in ["creator", "stranger"] {
        for owner in [None, Some("specified_owner".to_string())] {
            let again = instantiate(
                &mut Store { deps: host.as_mut() },
                info(sender),
                InstantiateMsg { owner },
            );
            assert!(matches!(again, Err(ContractError::AlreadyInitialized {})));
        }
    }
    // the owner is who it was
    assert!(authorize(&StoreRef { deps: host.as_ref() }, &info("creator")).is_ok());
    assert!(matches!(
        authorize(&StoreRef { deps: host.as_ref() }, &info("stranger")),
        Err(ContractError::Unauthorized {})
    ));
    assert!(matches!(
        authorize(&StoreRef { deps: host.as_ref() }, &info("specified_owner")),
        Err(ContractError::Unauthorized {})
    ));
    // the table is what it was, and the counter goes on where it stood
    assert_eq!(ids(&list(&host, None, None)), vec![1, 2]);
    assert_eq!(create(&mut host, "c", None), 3);
}

#[test]
fn instantiate_fails_where_only_an_owner_or_only_a_counter_is_there() {
    let mut host = mock_dependencies();
    let owner: cw_storage_plus::Item<String> = cw_storage_plus::Item::new("config");
    owner.save(&mut host.storage, &"first".to_string()).unwrap();
    let again = instantiate(
        &mut Store { deps: host.as_mut() },
        info("second"),
        InstantiateMsg { owner: None },
    );
    assert!(matches!(again, Err(ContractError::AlreadyInitialized {})));
    assert_eq!(owner.load(&host.storage).unwrap(), "first");
    let counter: cw_storage_plus::Item<u64> = cw_storage_plus::Item::new("entry_seq");
    assert!(counter.may_load(&host.storage).unwrap().is_none());
    assert!(cw2::get_contract_version(&host.storage).is_err());

    let mut host = mock_dependencies();
    counter.save(&mut host.storage, &41).unwrap();
    let again = instantiate(
        &mut Store { deps: host.as_mut() },
        info("second"),
        InstantiateMsg { owner: None },
    );
    assert!(matches!(again, Err(ContractError::AlreadyInitialized {})));
    assert_eq!(counter.load(&host.storage).unwrap(), 41);
    assert!(owner.may_load(&host.storage).unwrap().is_none());
}

#[test]
fn is_initialized_tells_a_new_store_from_one_set_up() {
    let mut host = mock_dependencies();
    assert!(!is_initialized(&StoreRef { deps: host.as_ref() }));
    raw_table().save(&mut host.storage, 4, &("kept".to_string(), 1, 2)).unwrap();
    assert!(!is_initialized(&StoreRef { deps: host.as_ref() }));
    instantiate(&mut Store { deps: host.as_mut() }, info("creator"), InstantiateMsg { owner: None })
        .unwrap();
    assert!(is_initialized(&StoreRef { deps: host.as_ref() }));
}

#[test]
fn can_create_refuses_the_owner_alone_once_the_counter_is_exhausted() {
    let mut host = fresh();
    assert!(can_create(&Store { deps: host.as_mut() }, &info("creator")));
    assert!(can_create(&Store { deps: host.as_mut() }, &info("stranger")));
    let counter: cw_storage_plus::Item<u64> = cw_storage_plus::Item::new("entry_seq");
    counter.save(&mut host.storage, &u64::MAX).unwrap();
    assert!(!can_create(&Store { deps: host.as_mut() }, &info("creator")));
    assert!(can_create(&Store { deps: host.as_mut() }, &info("stranger")));

    let new_entry = ExecuteMsg::NewEntry { description: "a".to_string(), priority: None };
    let delete = ExecuteMsg::DeleteEntry { id: 1 };
    let update =
        ExecuteMsg::UpdateEntry { id: 1, description: None, status: None, priority: None };
    assert!(!can_execute(&Store { deps: host.as_mut() }, &info("creator"), &new_entry));
    assert!(can_execute(&Store { deps: host.as_mut() }, &info("stranger"), &new_entry));
    assert!(can_execute(&Store { deps: host.as_mut() }, &info("creator"), &delete));
    assert!(can_execute(&Store { deps: host.as_mut() }, &info("creator"), &update));
    // the stranger is turned away as ever, and nothing moves
    let refused = execute(&mut Store { deps: host.as_mut() }, info("stranger"), new_entry);
    assert!(matches!(refused, Err(ContractError::Unauthorized {})));
    assert_eq!(counter.load(&host.storage).unwrap(), u64::MAX);

    // on a store that is not set up nobody is the owner
    let mut host = mock_dependencies();
    assert!(can_create(&Store { deps: host.as_mut() }, &info("creator")));
}

#[test]
fn instantiate_leaves_the_table_alone() {
    let mut host = mock_dependencies();
    raw_table().save(&mut host.storage, 4, &("kept".to_string(), 1, 2)).unwrap();
    instantiate(&mut Store { deps: host.as_mut() }, info("creator"), InstantiateMsg { owner: None })
        .unwrap();
    assert_eq!(get(&host, 4).unwrap(), entry(4, "kept", Status::InProgress, Priority::Medium));
}

#[test]
fn handlers_fail_while_no_owner_is_recorded() {
    let mut host = mock_dependencies();
    assert!(matches!(
        authorize(&StoreRef { deps: host.as_ref() }, &info("creator")),
        Err(ContractError::Std(StdError::NotFound { .. }))
    ));
    let made = execute_create_new_entry(
        &mut Store { deps: host.as_mut() },
        info("creator"),
        "a".to_string(),
        None,
    );
    assert!(matches!(made, Err(ContractError::Std(_))));
    let gone = execute_delete_entry(&mut Store { deps: host.as_mut() }, info("creator"), 1);
    assert!(matches!(gone, Err(ContractError::Std(_))));
}

#[test]
fn create_fails_while_no_counter_is_recorded() {
    let mut host = mock_dependencies();
    let owner: cw_storage_plus::Item<String> = cw_storage_plus::Item::new("config");
    owner.save(&mut host.storage, &"creator".to_string()).unwrap();
    let made = execute_create_new_entry(
        &mut Store { deps: host.as_mut() },
        info("creator"),
        "a".to_string(),
        None,
    );
    assert!(matches!(made, Err(ContractError::Std(_))));
    assert!(list(&host, None, None).is_empty());
}

#[test]
fn create_hands_out_rising_ids() {
    let mut host = fresh();
    assert_eq!(create(&mut host, "a", None), 1);
    assert_eq!(create(&mut host, "b", Some(Priority::High)), 2);
    assert_eq!(create(&mut host, "c", Some(Priority::Low)), 3);
    assert_eq!(get(&host, 1).unwrap(), entry(1, "a", Status::ToDo, Priority::Unspecified));
    assert_eq!(get(&host, 2).unwrap(), entry(2, "b", Status::ToDo, Priority::High));
    assert_eq!(get(&host, 3).unwrap(), entry(3, "c", Status::ToDo, Priority::Low));
}

#[test]
fn create_by_a_stranger_is_refused_and_changes_nothing() {
    let mut host = fresh();
    create(&mut host, "a", None);
    let made = execute_create_new_entry(
        &mut Store { deps: host.as_mut() },
        info("stranger"),
        "b".to_string(),
        None,
    );
    assert!(matches!(made, Err(ContractError::Unauthorized {})));
    assert_eq!(ids(&list(&host, None, None)), vec![1]);
    // the counter did not move either
    assert_eq!(create(&mut host, "c", None), 2);
}

#[test]
fn create_never_hands_out_an_id_again() {
    let mut host = fresh();
    create(&mut host, "a", None);
    create(&mut host, "b", None);
    create(&mut host, "c", None);
    execute_delete_entry(&mut Store { deps: host.as_mut() }, info("creator"), 3).unwrap();
    assert_eq!(create(&mut host, "d", None), 4);
    execute_delete_entry(&mut Store { deps: host.as_mut() }, info("creator"), 1).unwrap();
    execute_delete_entry(&mut Store { deps: host.as_mut() }, info("creator"), 2).unwrap();
    execute_delete_entry(&mut Store { deps: host.as_mut() }, info("creator"), 4).unwrap();
    assert!(list(&host, None, None).is_empty());
    assert_eq!(create(&mut host, "e", None), 5);
}

#[test]
fn create_reaches_the_largest_id_and_then_the_counter_is_exhausted() {
    let mut host = fresh();
    let counter: cw_storage_plus::Item<u64> = cw_storage_plus::Item::new("entry_seq");
    counter.save(&mut host.storage, &(u64::MAX - 1)).unwrap();
    assert!(!sequence_exhausted(&StoreRef { deps: host.as_ref() }));
    assert_eq!(create(&mut host, "last", None), u64::MAX);
    assert!(sequence_exhausted(&StoreRef { deps: host.as_ref() }));
    assert_eq!(get(&host, u64::MAX).unwrap().description, "last");
}

#[test]
fn create_keeps_any_description() {
    let mut host = fresh();
    let texts = [
        "",
        "plain",
        "quote \" backslash \\ newline \n tab \t bell \u{7} snowman \u{2603} done",
        "\"",
        "\\",
        "\\\"",
        "\"\\",
        "ends with a backslash \\",
        "\\u0041 is no escape here",
        "\u{0}\u{1}\u{8}\u{c}\u{d}\u{1f}\u{7f}",
        "slash / and [brackets], {braces}: \"a\",0,0",
        "\u{65e5}\u{672c}\u{8a9e} \u{1f980} \u{2028}\u{2029}",
        "  spaces around  ",
    ];
    for text in texts {
        let id = create(&mut host, text, Some(Priority::Medium));
        assert_eq!(get(&host, id).unwrap(), entry(id, text, Status::ToDo, Priority::Medium));
    }
    let all = query_list(&StoreRef { deps: host.as_ref() }, None, Some(30)).unwrap().entries;
    assert_eq!(all.len(), texts.len());
    for (found, text) in all.iter().zip(texts) {
        assert_eq!(found.description, text);
    }
}

#[test]
fn owner_is_compared_as_it_was_written() {
    let mut host = mock_dependencies();
    let name = "an \"odd\" owner \\ \n \u{1f980}";
    instantiate(&mut Store { deps: host.as_mut() }, info(name), InstantiateMsg { owner: None })
        .unwrap();
    assert!(authorize(&StoreRef { deps: host.as_ref() }, &info(name)).is_ok());
    assert!(matches!(
        authorize(&StoreRef { deps: host.as_ref() }, &info("an \"odd\" owner")),
        Err(ContractError::Unauthorized {})
    ));
    assert!(matches!(
        authorize(&StoreRef { deps: host.as_ref() }, &info("")),
        Err(ContractError::Unauthorized {})
    ));
}

#[test]
fn update_changes_the_fields_given_and_no_others() {
    let mut host = fresh();
    create(&mut host, "a", Some(Priority::Low));
    create(&mut host, "b", None);

    let done = execute_update_entry(
        &mut Store { deps: host.as_mut() },
        info("creator"),
        1,
        None,
        Some(Status::InProgress),
        None,
    );
    assert_eq!(done.unwrap(), Response::EntryUpdated { id: 1 });
    assert_eq!(get(&host, 1).unwrap(), entry(1, "a", Status::InProgress, Priority::Low));

    execute_update_entry(
        &mut Store { deps: host.as_mut() },
        info("creator"),
        1,
        Some("a, rewritten".to_string()),
        None,
        Some(Priority::High),
    )
    .unwrap();
    assert_eq!(
        get(&host, 1).unwrap(),
        entry(1, "a, rewritten", Status::InProgress, Priority::High)
    );

    execute_update_entry(
        &mut Store { deps: host.as_mut() },
        info("creator"),
        1,
        Some("all".to_string()),
        Some(Status::Done),
        Some(Priority::Unspecified),
    )
    .unwrap();
    assert_eq!(get(&host, 1).unwrap(), entry(1, "all", Status::Done, Priority::Unspecified));

    // the neighbour was never touched
    assert_eq!(get(&host, 2).unwrap(), entry(2, "b", Status::ToDo, Priority::Unspecified));
}

#[test]
fn update_with_an_empty_patch_changes_nothing() {
    let mut host = fresh();
    create(&mut host, "a", Some(Priority::Medium));
    execute_update_entry(&mut Store { deps: host.as_mut() }, info("creator"), 1, None, None, None)
        .unwrap();
    assert_eq!(get(&host, 1).unwrap(), entry(1, "a", Status::ToDo, Priority::Medium));
}

#[test]
fn update_twice_with_the_same_patch_is_update_once() {
    let mut host = fresh();
    create(&mut host, "a", None);
    create(&mut host, "b", None);
    for _ in 0..2 {
        execute_update_entry(
            &mut Store { deps: host.as_mut() },
            info("creator"),
            2,
            Some("b2".to_string()),
            Some(Status::Done),
            None,
        )
        .unwrap();
        assert_eq!(
            list(&host, None, None),
            vec![
                entry(1, "a", Status::ToDo, Priority::Unspecified),
                entry(2, "b2", Status::Done, Priority::Unspecified),
            ]
        );
    }
}

#[test]
fn update_of_an_unknown_id_is_not_found_and_changes_nothing() {
    let mut host = fresh();
    create(&mut host, "a", None);
    let done = execute_update_entry(
        &mut Store { deps: host.as_mut() },
        info("creator"),
        7,
        Some("x".to_string()),
        Some(Status::Done),
        Some(Priority::High),
    );
    assert!(matches!(done, Err(ContractError::Std(StdError::NotFound { .. }))));
    assert_eq!(list(&host, None, None), vec![entry(1, "a", Status::ToDo, Priority::Unspecified)]);
    assert!(matches!(get(&host, 7), Err(StdError::NotFound { .. })));
}

#[test]
fn update_by_a_stranger_is_refused_and_changes_nothing() {
    let mut host = fresh();
    create(&mut host, "a", None);
    let done = execute_update_entry(
        &mut Store { deps: host.as_mut() },
        info("stranger"),
        1,
        Some("x".to_string()),
        None,
        None,
    );
    assert!(matches!(done, Err(ContractError::Unauthorized {})));
    // a stranger learns nothing about which ids exist
    let done = execute_update_entry(
        &mut Store { deps: host.as_mut() },
        info("stranger"),
        9,
        None,
        None,
        None,
    );
    assert!(matches!(done, Err(ContractError::Unauthorized {})));
    assert_eq!(get(&host, 1).unwrap(), entry(1, "a", Status::ToDo, Priority::Unspecified));
}

#[test]
fn delete_removes_the_entry() {
    let mut host = fresh();
    create(&mut host, "a", None);
    create(&mut host, "b", None);
    let done = execute_delete_entry(&mut Store { deps: host.as_mut() }, info("creator"), 1);
    assert_eq!(done.unwrap(), Response::EntryDeleted { id: 1 });
    assert!(matches!(get(&host, 1), Err(StdError::NotFound { .. })));
    assert_eq!(ids(&list(&host, None, None)), vec![2]);
}

#[test]
fn delete_of_an_unknown_id_succeeds_and_changes_nothing() {
    let mut host = fresh();
    create(&mut host, "a", None);
    let done = execute_delete_entry(&mut Store { deps: host.as_mut() }, info("creator"), 5);
    assert_eq!(done.unwrap(), Response::EntryDeleted { id: 5 });
    assert_eq!(list(&host, None, None), vec![entry(1, "a", Status::ToDo, Priority::Unspecified)]);
    assert_eq!(create(&mut host, "b", None), 2);
}

#[test]
fn delete_by_a_stranger_is_refused_and_changes_nothing() {
    let mut host = fresh();
    create(&mut host, "a", None);
    let done = execute_delete_entry(&mut Store { deps: host.as_mut() }, info("stranger"), 1);
    assert!(matches!(done, Err(ContractError::Unauthorized {})));
    assert_eq!(get(&host, 1).unwrap(), entry(1, "a", Status::ToDo, Priority::Unspecified));
}

#[test]
fn query_entry_of_an_unknown_id_is_not_found() {
    let host = fresh();
    assert!(matches!(get(&host, 1), Err(StdError::NotFound { .. })));
    assert!(matches!(get(&host, 0), Err(StdError::NotFound { .. })));
}

#[test]
fn query_list_of_three_entries() {
    let mut host = fresh();
    assert_eq!(create(&mut host, "a", None), 1);
    assert_eq!(create(&mut host, "b", None), 2);
    assert_eq!(create(&mut host, "c", None), 3);
    for id in 1..=3 {
        assert_eq!(get(&host, id).unwrap().status, Status::ToDo);
    }
    assert_eq!(
        list(&host, Some(1), Some(10)),
        vec![
            entry(2, "b", Status::ToDo, Priority::Unspecified),
            entry(3, "c", Status::ToDo, Priority::Unspecified),
        ]
    );
    assert_eq!(
        list(&host, None, Some(2)),
        vec![
            entry(1, "a", Status::ToDo, Priority::Unspecified),
            entry(2, "b", Status::ToDo, Priority::Unspecified),
        ]
    );
}

#[test]
fn query_list_defaults_to_ten_entries() {
    let mut host = fresh();
    for n in 0..12 {
        create(&mut host, &format!("entry {}", n), None);
    }
    assert_eq!(ids(&list(&host, None, None)), (1..=10).collect::<Vec<u64>>());
    assert_eq!(ids(&list(&host, Some(10), None)), vec![11, 12]);
}

#[test]
fn query_list_never_returns_more_than_thirty_entries() {
    let mut host = fresh();
    for n in 0..35 {
        create(&mut host, &format!("entry {}", n), None);
    }
    assert_eq!(ids(&list(&host, None, Some(30))), (1..=30).collect::<Vec<u64>>());
    assert_eq!(ids(&list(&host, None, Some(31))), (1..=30).collect::<Vec<u64>>());
    assert_eq!(ids(&list(&host, None, Some(u32::MAX))), (1..=30).collect::<Vec<u64>>());
    assert_eq!(ids(&list(&host, Some(30), Some(100))), vec![31, 32, 33, 34, 35]);
    assert_eq!(ids(&list(&host, None, Some(29))), (1..=29).collect::<Vec<u64>>());
}

#[test]
fn query_list_with_limit_zero_is_empty() {
    let mut host = fresh();
    create(&mut host, "a", None);
    assert!(list(&host, None, Some(0)).is_empty());
}

#[test]
fn query_list_of_an_empty_table_is_empty() {
    let host = fresh();
    assert!(list(&host, None, None).is_empty());
    assert!(list(&host, Some(3), Some(5)).is_empty());
}

#[test]
fn query_list_starts_strictly_behind_the_cursor() {
    let mut host = fresh();
    for n in 0..5 {
        create(&mut host, &format!("entry {}", n), None);
    }
    execute_delete_entry(&mut Store { deps: host.as_mut() }, info("creator"), 3).unwrap();
    assert_eq!(ids(&list(&host, Some(0), None)), vec![1, 2, 4, 5]);
    assert_eq!(ids(&list(&host, Some(2), None)), vec![4, 5]);
    // the cursor need not be an id of the table
    assert_eq!(ids(&list(&host, Some(3), None)), vec![4, 5]);
    assert_eq!(ids(&list(&host, Some(4), Some(1))), vec![5]);
    assert!(list(&host, Some(5), None).is_empty());
    assert!(list(&host, Some(u64::MAX), None).is_empty());
}

#[test]
fn query_list_orders_by_id_and_not_by_key_text() {
    let mut host = fresh();
    for id in [300u64, 2, 70000, 255, 256, 1, u64::MAX] {
        raw_table().save(&mut host.storage, id, &(format!("entry {}", id), 0, 0)).unwrap();
    }
    assert_eq!(ids(&list(&host, None, None)), vec![1, 2, 255, 256, 300, 70000, u64::MAX]);
    assert_eq!(ids(&list(&host, Some(255), Some(2))), vec![256, 300]);
}

#[test]
fn query_list_pages_add_up_to_the_table() {
    let mut host = fresh();
    for n in 0..25 {
        create(&mut host, &format!("entry {}", n), None);
    }
    let mut seen = Vec::new();
    let mut cursor = None;
    loop {
        let page = list(&host, cursor, Some(7));
        if page.is_empty() {
            break;
        }
        assert!(page.len() <= 7);
        cursor = Some(page[page.len() - 1].id);
        seen.extend(ids(&page));
    }
    assert_eq!(seen, (1..=25).collect::<Vec<u64>>());
}

#[test]
fn create_does_not_move_earlier_pages() {
    let mut host = fresh();
    for n in 0..7 {
        create(&mut host, &format!("entry {}", n), None);
    }
    let first = list(&host, None, Some(3));
    let second = list(&host, Some(3), Some(3));
    let third = list(&host, Some(6), Some(3));
    assert_eq!(ids(&third), vec![7]);
    create(&mut host, "late", None);
    assert_eq!(list(&host, None, Some(3)), first);
    assert_eq!(list(&host, Some(3), Some(3)), second);
    // the new entry comes last in the walk that reaches it
    let mut grown = third;
    grown.push(entry(8, "late", Status::ToDo, Priority::Unspecified));
    assert_eq!(list(&host, Some(6), Some(3)), grown);
    assert!(list(&host, Some(8), Some(3)).is_empty());
}

#[test]
fn a_record_with_an_unknown_code_is_a_storage_failure() {
    let mut host = fresh();
    create(&mut host, "a", None);
    raw_table().save(&mut host.storage, 2, &("b".to_string(), 3, 0)).unwrap();
    raw_table().save(&mut host.storage, 3, &("c".to_string(), 0, 4)).unwrap();
    assert!(matches!(get(&host, 2), Err(StdError::ParseErr { .. })));
    assert!(matches!(get(&host, 3), Err(StdError::ParseErr { .. })));
    let done = execute_update_entry(
        &mut Store { deps: host.as_mut() },
        info("creator"),
        2,
        None,
        Some(Status::Done),
        None,
    );
    assert!(matches!(done, Err(ContractError::Std(StdError::ParseErr { .. }))));
    // the page that ends before the record is fine, the one that reaches it is not
    assert_eq!(ids(&list(&host, None, Some(1))), vec![1]);
    let reached = query_list(&StoreRef { deps: host.as_ref() }, None, Some(2));
    assert!(matches!(reached, Err(StdError::ParseErr { .. })));
    // the owner can still remove it
    execute_delete_entry(&mut Store { deps: host.as_mut() }, info("creator"), 2).unwrap();
    execute_delete_entry(&mut Store { deps: host.as_mut() }, info("creator"), 3).unwrap();
    assert_eq!(ids(&list(&host, None, None)), vec![1]);
}

#[test]
fn bytes_that_are_no_record_are_a_storage_failure() {
    let mut host = fresh();
    create(&mut host, "a", None);
    let mut key = b"\x00\x04list".to_vec();
    key.extend_from_slice(&2u64.to_be_bytes());
    host.storage.set(&key, b"{\"not\":\"a record\"}");
    assert!(matches!(get(&host, 2), Err(StdError::ParseErr { .. })));
    let done = execute_update_entry(
        &mut Store { deps: host.as_mut() },
        info("creator"),
        2,
        None,
        None,
        None,
    );
    assert!(matches!(done, Err(ContractError::Std(StdError::ParseErr { .. }))));
    assert!(query_list(&StoreRef { deps: host.as_ref() }, None, None).is_err());
    assert_eq!(ids(&list(&host, None, Some(1))), vec![1]);
}

#[test]
fn a_key_that_is_no_id_fails_the_walk_that_meets_it() {
    let mut host = fresh();
    create(&mut host, "a", None);
    create(&mut host, "b", None);
    // a key behind every id
    host.storage.set(b"\x00\x04listxyz", b"[\"odd\",0,0]");
    let walked = query_list(&StoreRef { deps: host.as_ref() }, None, None);
    assert!(walked.is_err());
    assert!(!matches!(walked, Err(StdError::NotFound { .. })));
    // a page that is full before the walk gets there is as it should be
    assert_eq!(ids(&list(&host, None, Some(2))), vec![1, 2]);
    assert_eq!(ids(&list(&host, Some(1), Some(1))), vec![2]);
    assert!(query_list(&StoreRef { deps: host.as_ref() }, Some(1), Some(2)).is_err());
    // single entries are not touched by it
    assert_eq!(get(&host, 1).unwrap().description, "a");

    // a key before every id
    let mut host = fresh();
    create(&mut host, "a", None);
    host.storage.set(b"\x00\x04list\x00", b"[\"odd\",0,0]");
    assert!(query_list(&StoreRef { deps: host.as_ref() }, None, Some(1)).is_err());
    // a walk that starts behind the key does not meet it
    assert_eq!(ids(&list(&host, Some(0), Some(1))), vec![1]);
    assert!(list(&host, None, Some(0)).is_empty());
    assert_eq!(get(&host, 1).unwrap().description, "a");
}

#[test]
fn an_unreadable_owner_is_a_storage_failure() {
    let mut host = fresh();
    host.storage.set(b"config", b"17");
    let made = execute_create_new_entry(
        &mut Store { deps: host.as_mut() },
        info("creator"),
        "a".to_string(),
        None,
    );
    assert!(matches!(made, Err(ContractError::Std(StdError::ParseErr { .. }))));
    assert!(list(&host, None, None).is_empty());
}

#[test]
fn execute_dispatches_each_request() {
    let mut host = fresh();
    let made = execute(
        &mut Store { deps: host.as_mut() },
        info("creator"),
        ExecuteMsg::NewEntry { description: "a".to_string(), priority: Some(Priority::High) },
    );
    assert_eq!(made.unwrap(), Response::EntryCreated { id: 1 });
    let changed = execute(
        &mut Store { deps: host.as_mut() },
        info("creator"),
        ExecuteMsg::UpdateEntry {
            id: 1,
            description: None,
            status: Some(Status::Done),
            priority: None,
        },
    );
    assert_eq!(changed.unwrap(), Response::EntryUpdated { id: 1 });
    assert_eq!(get(&host, 1).unwrap(), entry(1, "a", Status::Done, Priority::High));
    let refused = execute(
        &mut Store { deps: host.as_mut() },
        info("stranger"),
        ExecuteMsg::DeleteEntry { id: 1 },
    );
    assert!(matches!(refused, Err(ContractError::Unauthorized {})));
    let gone = execute(
        &mut Store { deps: host.as_mut() },
        info("creator"),
        ExecuteMsg::DeleteEntry { id: 1 },
    );
    assert_eq!(gone.unwrap(), Response::EntryDeleted { id: 1 });
    assert!(get(&host, 1).is_err());
}

#[test]
fn query_dispatches_each_question() {
    let mut host = fresh();
    create(&mut host, "a", None);
    create(&mut host, "b", None);
    let one = query(&StoreRef { deps: host.as_ref() }, QueryMsg::QueryEntry { id: 2 });
    assert_eq!(
        one.unwrap(),
        QueryResponse::Entry(entry(2, "b", Status::ToDo, Priority::Unspecified))
    );
    let missing = query(&StoreRef { deps: host.as_ref() }, QueryMsg::QueryEntry { id: 3 });
    assert!(matches!(missing, Err(StdError::NotFound { .. })));
    let page = query(
        &StoreRef { deps: host.as_ref() },
        QueryMsg::QueryList { start_after: Some(1), limit: None },
    );
    assert_eq!(
        page.unwrap(),
        QueryResponse::List(ListResponse {
            entries: vec![entry(2, "b", Status::ToDo, Priority::Unspecified)],
        })
    );
}

#[test]
fn errors_say_what_went_wrong() {
    let mut host = fresh();
    let refused = execute_delete_entry(&mut Store { deps: host.as_mut() }, info("stranger"), 1);
    assert_eq!(refused.unwrap_err().describe(), "Unauthorized");
    let missing = execute_update_entry(
        &mut Store { deps: host.as_mut() },
        info("creator"),
        1,
        None,
        None,
        None,
    );
    assert!(missing.unwrap_err().describe().ends_with("not found"));
    let again = instantiate(
        &mut Store { deps: host.as_mut() },
        info("creator"),
        InstantiateMsg { owner: None },
    );
    assert_eq!(again.unwrap_err().describe(), "Already initialized");
    let failed = ContractError::Std(StdError::generic_err("the disk is full"));
    assert_eq!(failed.describe(), "Generic error: the disk is full");
}

#[test]
fn errors_tell_their_kind() {
    let mut host = fresh();
    create(&mut host, "a", None);
    let refused = execute_delete_entry(&mut Store { deps: host.as_mut() }, info("stranger"), 1);
    assert_eq!(refused.unwrap_err().kind(), ErrorKind::Unauthorized);
    let missing = execute_update_entry(
        &mut Store { deps: host.as_mut() },
        info("creator"),
        9,
        None,
        None,
        None,
    );
    assert_eq!(missing.unwrap_err().kind(), ErrorKind::NotFound);
    raw_table().save(&mut host.storage, 2, &("b".to_string(), 7, 0)).unwrap();
    let broken = execute_update_entry(
        &mut Store { deps: host.as_mut() },
        info("creator"),
        2,
        None,
        None,
        None,
    );
    assert_eq!(broken.unwrap_err().kind(), ErrorKind::StorageFailure);
    let again = instantiate(
        &mut Store { deps: host.as_mut() },
        info("creator"),
        InstantiateMsg { owner: None },
    );
    assert_eq!(again.unwrap_err().kind(), ErrorKind::AlreadyInitialized);
    assert_eq!(
        ContractError::Std(StdError::generic_err("not found")).kind(),
        ErrorKind::StorageFailure
    );
    assert_eq!(ContractError::Std(StdError::not_found("thing")).kind(), ErrorKind::NotFound);
}
