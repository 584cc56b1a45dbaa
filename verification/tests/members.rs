use npc_backend::members::{member_le, refresh_members, same_members, sort_members, str_le, MatrixUser};

fn user(id: &str, name: Option<&str>) -> MatrixUser {
    MatrixUser { user_id: id.to_string(), display_name: name.map(|s| s.to_string()) }
}

fn ids(v: &[MatrixUser]) -> Vec<(String, Option<String>)> {
    v.iter().map(|u| (u.user_id.clone(), u.display_name.clone())).collect()
}

#[test]
fn string_order_matches_std() {
    let words = ["", "a", "ab", "b", "ä", "Z", "agent_10", "agent_2", "@agent_0:m"];
    for a in words {
        for b in words {
            assert_eq!(str_le(a, b), a <= b, "{} vs {}", a, b);
        }
    }
}

#[test]
fn member_order_is_id_then_display_name() {
    assert!(member_le(&user("@a:m", None), &user("@a:m", Some("x"))));
    assert!(!member_le(&user("@a:m", Some("x")), &user("@a:m", None)));
    assert!(member_le(&user("@a:m", Some("z")), &user("@b:m", None)));
    assert!(member_le(&user("@a:m", Some("x")), &user("@a:m", Some("y"))));
}

#[test]
fn sort_members_orders_like_std_sort() {
    let input = vec![
        user("@agent_2:m", Some("two")),
        user("@agent_0:m", None),
        user("@controller:m", Some("c")),
        user("@agent_1:m", Some("one")),
        user("@agent_0:m", Some("zero")),
    ];
    let mut expected = ids(&input);
    expected.sort();
    let sorted = sort_members(input);
    assert_eq!(ids(&sorted), expected);
}

#[test]
fn refresh_reports_change_once() {
    let mut stored: Vec<MatrixUser> = Vec::new();
    let first = vec![user("@b:m", None), user("@a:m", Some("A"))];
    assert!(refresh_members(&mut stored, first));
    assert_eq!(ids(&stored), vec![("@a:m".to_string(), Some("A".to_string())), ("@b:m".to_string(), None)]);
    let again = vec![user("@a:m", Some("A")), user("@b:m", None)];
    assert!(!refresh_members(&mut stored, again));
    let changed = vec![user("@a:m", Some("A"))];
    assert!(refresh_members(&mut stored, changed));
    assert_eq!(stored.len(), 1);
}

#[test]
fn same_members_compares_entries() {
    let a = vec![user("@a:m", None)];
    let b = vec![user("@a:m", Some("x"))];
    assert!(!same_members(&a, &b));
    assert!(same_members(&a, &vec![user("@a:m", None)]));
}
