use resource_manager::{ResourceError, ResourceManager, ResourceRequest};

fn free_capacity(pool: &ResourceManager) -> (u64, u64, u64) {
    (pool.available_mem(), pool.available_cpus(), pool.available_gpus())
}

fn shortage(name: &str) -> ResourceError {
    ResourceError::NotEnoughResources(name.to_string())
}

#[test]
fn new_pool_has_everything_free() {
    let pool = ResourceManager::new(2048, 4, 1);
    assert_eq!(free_capacity(&pool), (2048, 4, 1));

    let full = ResourceManager::new(u64::MAX, u64::MAX, u64::MAX);
    assert_eq!(free_capacity(&full), (u64::MAX, u64::MAX, u64::MAX));
}

#[test]
fn reserve_takes_all_three_at_once() {
    let mut pool = ResourceManager::new(2048, 4, 2);
    let req = ResourceRequest { mem: 48, cpus: 3, gpus: 2 };
    assert_eq!(pool.reserve(&req), Ok(()));
    assert_eq!(free_capacity(&pool), (2000, 1, 0));
}

#[test]
fn reserve_twice_then_refuse() {
    let mut pool = ResourceManager::new(2048, 4, 0);
    let req = ResourceRequest { mem: 1024, cpus: 1, gpus: 0 };
    assert_eq!(pool.reserve(&req), Ok(()));
    assert_eq!(pool.reserve(&req), Ok(()));
    assert_eq!(free_capacity(&pool), (0, 2, 0));
    assert_eq!(pool.reserve(&req), Err(shortage("memory")));
    assert_eq!(free_capacity(&pool), (0, 2, 0));
}

#[test]
fn reserve_names_the_first_shortage_only() {
    let mut pool = ResourceManager::new(2048, 4, 0);

    let req = ResourceRequest { mem: 4096, cpus: 2, gpus: 0 };
    assert_eq!(pool.reserve(&req), Err(shortage("memory")));
    let req = ResourceRequest { mem: 4096, cpus: 8, gpus: 1 };
    assert_eq!(pool.reserve(&req), Err(shortage("memory")));
    let req = ResourceRequest { mem: 2048, cpus: 5, gpus: 1 };
    assert_eq!(pool.reserve(&req), Err(shortage("cpus")));
    let req = ResourceRequest { mem: 2048, cpus: 4, gpus: 1 };
    assert_eq!(pool.reserve(&req), Err(shortage("gpus")));

    assert_eq!(free_capacity(&pool), (2048, 4, 0));
}

#[test]
fn reserve_at_the_limits_of_the_counters() {
    let mut pool = ResourceManager::new(u64::MAX, 0, 0);
    let req = ResourceRequest { mem: u64::MAX, cpus: 0, gpus: 0 };
    assert_eq!(pool.reserve(&req), Ok(()));
    assert_eq!(free_capacity(&pool), (0, 0, 0));
    let req = ResourceRequest { mem: 1, cpus: 0, gpus: 0 };
    assert_eq!(pool.reserve(&req), Err(shortage("memory")));
}

#[test]
fn error_message_names_the_resource() {
    assert_eq!(shortage("memory").message(), "not enough resources: memory");
    assert_eq!(shortage("cpus").message(), "not enough resources: cpus");
    assert_eq!(shortage("gpus").message(), "not enough resources: gpus");

    let mut pool = ResourceManager::new(1, 1, 0);
    let req = ResourceRequest { mem: 1, cpus: 1, gpus: 1 };
    let refused = pool.reserve(&req).unwrap_err();
    assert_eq!(refused.message(), "not enough resources: gpus");
}

#[test]
fn request_is_a_plain_value() {
    let req = ResourceRequest { mem: 7, cpus: 8, gpus: 9 };
    let copy = req;
    assert_eq!(req, copy);
    assert_eq!((copy.mem, copy.cpus, copy.gpus), (7, 8, 9));
}
