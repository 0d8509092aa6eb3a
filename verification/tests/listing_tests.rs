use task_sync::listing::sort_newest_first;
use task_sync::model::Task;

fn task_created_at(id: i32, created_at: i64) -> Task {
    Task {
        id,
        title: format!("task {}", id),
        completed: false,
        category: "general".to_string(),
        created_at,
        updated_at: created_at,
        user_id: 1,
    }
}

#[test]
fn orders_newest_created_first() {
    let tasks = vec![
        task_created_at(1, 100),
        task_created_at(2, 300),
        task_created_at(3, 200),
    ];
    let sorted = sort_newest_first(tasks);
    let ids: Vec<i32> = sorted.iter().map(|t| t.id).collect();
    assert_eq!(ids, vec![2, 3, 1]);
}

#[test]
fn keeps_every_task_once() {
    let tasks = vec![
        task_created_at(1, 5),
        task_created_at(2, 5),
        task_created_at(3, 1),
        task_created_at(4, 9),
    ];
    let sorted = sort_newest_first(tasks);
    assert_eq!(sorted.len(), 4);
    let mut ids: Vec<i32> = sorted.iter().map(|t| t.id).collect();
    ids.sort();
    assert_eq!(ids, vec![1, 2, 3, 4]);
    assert!(sorted.windows(2).all(|w| w[0].created_at >= w[1].created_at));
}

#[test]
fn handles_empty_and_singleton_lists() {
    assert_eq!(sort_newest_first(Vec::new()).len(), 0);
    let sorted = sort_newest_first(vec![task_created_at(1, 7)]);
    assert_eq!(sorted.len(), 1);
    assert_eq!(sorted[0].id, 1);
}
