//! End-to-end scenarios: the verified plans are executed against a
//! simulated kernel (named semaphores and named shared-memory objects
//! held in maps), with several handles standing in for several
//! processes. Every branch the executor takes is computed by the
//! library's decision functions.

use std::collections::HashMap;

use shared_resource::codec::decode_u64;
use shared_resource::codec::encode_u64;
use shared_resource::error::Error;
use shared_resource::host::HostOs;
use shared_resource::plan::access_prefix_plan;
use shared_resource::plan::drop_prefix_plan;
use shared_resource::plan::mutate_write_plan;
use shared_resource::plan::open_plan;
use shared_resource::plan::read_payload_action;
use shared_resource::plan::segment_close_plan;
use shared_resource::plan::segment_creator_plan;
use shared_resource::plan::segment_peer_payload_action;
use shared_resource::plan::segment_peer_prefix_plan;
use shared_resource::plan::teardown_plan;
use shared_resource::plan::unlock_action;
use shared_resource::plan::Action;
use shared_resource::semaphore::decrement_result;
use shared_resource::semaphore::excl_open_next;
use shared_resource::semaphore::DecrementOutcome;
use shared_resource::semaphore::ExclOpenNext;

const EEXIST: i32 = 17;
const EAGAIN: i32 = 11;
const ETIMEDOUT: i32 = 110;

/// The simulated kernel namespaces.
#[derive(Default)]
struct Kernel {
    sems: HashMap<String, i64>,
    shms: HashMap<String, Vec<u8>>,
}

/// One simulated process's handle to a resource.
struct Handle {
    user: String,
    mutex_name: String,
    counter_name: String,
    shm_name: String,
    mapped_len: u64,
}

fn meta_size(k: &Kernel, shm: &str) -> u64 {
    let obj = &k.shms[shm];
    u64::from_le_bytes(obj[0..8].try_into().unwrap())
}

fn lock(k: &mut Kernel, h: &Handle) -> Result<(), Error> {
    let v = k.sems.get_mut(&h.mutex_name).unwrap();
    if *v > 0 {
        *v -= 1;
        Ok(())
    } else {
        // a holder that never posts leaves waiters to time out
        Err(Error::sem_error(ETIMEDOUT, String::from("lock timed out")))
    }
}

fn unlock(k: &mut Kernel, h: &Handle) {
    *k.sems.get_mut(&h.mutex_name).unwrap() += 1;
}

fn exec_segment_write(k: &mut Kernel, h: &mut Handle, a: Action) {
    match a {
        Action::Truncate { len } => {
            k.shms.get_mut(&h.shm_name).unwrap().resize(len as usize, 0);
        },
        Action::MapMeta => {},
        Action::WriteMetaSize { size } => {
            let obj = k.shms.get_mut(&h.shm_name).unwrap();
            obj[0..8].copy_from_slice(&size.to_le_bytes());
        },
        Action::MapPayload { len, offset: _ } => {
            h.mapped_len = len;
        },
        Action::WritePayload { bytes, offset } => {
            let obj = k.shms.get_mut(&h.shm_name).unwrap();
            let start = offset as usize;
            obj[start..start + bytes.len()].copy_from_slice(&bytes);
        },
        Action::ResizePayload { old_len: _, new_len, new_total } => {
            k.shms.get_mut(&h.shm_name).unwrap().resize(new_total as usize, 0);
            h.mapped_len = new_len;
        },
        _ => panic!("not a segment write action"),
    }
}

fn run_open(k: &mut Kernel, user: &str, initial_payload: &[u8]) -> Result<Handle, Error> {
    let mut h = Handle {
        user: user.to_string(),
        mutex_name: String::new(),
        counter_name: String::new(),
        shm_name: String::new(),
        mapped_len: 0,
    };
    for a in open_plan(user) {
        match a {
            Action::OpenMutex { name, init_value } => {
                let exists = k.sems.contains_key(&name);
                match excl_open_next(exists, if exists { EEXIST } else { 0 }) {
                    ExclOpenNext::UseCreated => {
                        k.sems.insert(name.clone(), init_value as i64);
                    },
                    ExclOpenNext::TryPlainOpen => {},
                    ExclOpenNext::Fail => {
                        return Err(Error::sem_error(0, String::from("open failed")));
                    },
                }
                h.mutex_name = name;
            },
            Action::OpenCounter { name, init_value } => {
                let exists = k.sems.contains_key(&name);
                match excl_open_next(exists, if exists { EEXIST } else { 0 }) {
                    ExclOpenNext::UseCreated => {
                        k.sems.insert(name.clone(), init_value as i64);
                    },
                    ExclOpenNext::TryPlainOpen => {},
                    ExclOpenNext::Fail => {
                        return Err(Error::sem_error(0, String::from("open failed")));
                    },
                }
                h.counter_name = name;
            },
            Action::IncrementCounter => {
                *k.sems.get_mut(&h.counter_name).unwrap() += 1;
            },
            Action::LockMutex => lock(k, &h)?,
            Action::UnlockMutex => unlock(k, &h),
            Action::OpenSegment { name } => {
                let exists = k.shms.contains_key(&name);
                h.shm_name = name.clone();
                match excl_open_next(exists, if exists { EEXIST } else { 0 }) {
                    ExclOpenNext::UseCreated => {
                        k.shms.insert(name, Vec::new());
                        for s in segment_creator_plan(initial_payload.to_vec()) {
                            exec_segment_write(k, &mut h, s);
                        }
                    },
                    ExclOpenNext::TryPlainOpen => {
                        let mut size: u64 = 0;
                        for s in segment_peer_prefix_plan() {
                            match s {
                                Action::MapMeta => {},
                                Action::ReadMetaSize => size = meta_size(k, &h.shm_name),
                                _ => panic!("not a peer prefix action"),
                            }
                        }
                        exec_segment_write(k, &mut h, segment_peer_payload_action(size));
                    },
                    ExclOpenNext::Fail => {
                        return Err(Error::shm_error(0, String::from("open failed")));
                    },
                }
            },
            _ => panic!("not an open action"),
        }
    }
    Ok(h)
}

fn run_read_bytes(k: &mut Kernel, h: &mut Handle) -> Result<Vec<u8>, Error> {
    let mut size: u64 = 0;
    for a in access_prefix_plan() {
        match a {
            Action::LockMutex => lock(k, h)?,
            Action::ReadMetaSize => size = meta_size(k, &h.shm_name),
            _ => panic!("not an access prefix action"),
        }
    }
    let bytes = match read_payload_action(size) {
        Action::ReadPayload { len, offset } => {
            let obj = &k.shms[&h.shm_name];
            obj[offset as usize..(offset + len) as usize].to_vec()
        },
        _ => panic!("not a payload read"),
    };
    match unlock_action() {
        Action::UnlockMutex => unlock(k, h),
        _ => panic!("not an unlock"),
    }
    Ok(bytes)
}

fn run_read_value(k: &mut Kernel, h: &mut Handle) -> Result<u64, Error> {
    let bytes = run_read_bytes(k, h)?;
    decode_u64(&bytes)
}

fn run_mutate_bytes(k: &mut Kernel, h: &mut Handle, new_bytes: &[u8]) -> Result<(), Error> {
    let mut size: u64 = 0;
    for a in access_prefix_plan() {
        match a {
            Action::LockMutex => lock(k, h)?,
            Action::ReadMetaSize => size = meta_size(k, &h.shm_name),
            _ => panic!("not an access prefix action"),
        }
    }
    for a in mutate_write_plan(size, new_bytes.to_vec()) {
        match a {
            Action::UnlockMutex => unlock(k, h),
            other => exec_segment_write(k, h, other),
        }
    }
    Ok(())
}

fn run_drop(k: &mut Kernel, h: Handle) -> Result<(), Error> {
    let mut h = h;
    let mut counter_value: i32 = 0;
    for a in drop_prefix_plan() {
        match a {
            Action::LockMutex => lock(k, &h)?,
            Action::DecrementCounter => {
                let v = k.sems.get_mut(&h.counter_name).unwrap();
                if *v > 0 {
                    *v -= 1;
                } else {
                    let d = decrement_result(
                        HostOs::Linux,
                        true,
                        EAGAIN,
                        String::from("would block"),
                    )?;
                    assert!(matches!(d, DecrementOutcome::AlreadyZero));
                }
            },
            Action::ReadCounterValue => counter_value = k.sems[&h.counter_name] as i32,
            _ => panic!("not a drop prefix action"),
        }
    }
    for a in teardown_plan(&h.user.clone(), counter_value) {
        match a {
            Action::CloseCounter | Action::CloseMutex => {},
            Action::UnlinkCounter { name } | Action::UnlinkMutex { name } => {
                k.sems.remove(&name);
            },
            Action::CloseSegment => {
                for s in segment_close_plan(h.mapped_len) {
                    match s {
                        Action::UnmapPayload { len } => assert_eq!(len, h.mapped_len),
                        Action::UnmapMeta | Action::CloseFd => {},
                        _ => panic!("not a segment close action"),
                    }
                }
                h.mapped_len = 0;
            },
            Action::UnlinkSegment { name } => {
                k.shms.remove(&name);
            },
            Action::UnlockMutex => unlock(k, &h),
            _ => panic!("not a teardown action"),
        }
    }
    Ok(())
}

fn names_absent(k: &Kernel, user: &str) -> bool {
    !k.sems.contains_key(&shared_resource::names::mutex_name(user))
        && !k.sems.contains_key(&shared_resource::names::counter_name(user))
        && !k.shms.contains_key(&shared_resource::names::segment_name(user))
}

fn names_present(k: &Kernel, user: &str) -> bool {
    k.sems.contains_key(&shared_resource::names::mutex_name(user))
        && k.sems.contains_key(&shared_resource::names::counter_name(user))
        && k.shms.contains_key(&shared_resource::names::segment_name(user))
}

#[test]
fn single_process_open_close() {
    let mut k = Kernel::default();
    let h = run_open(&mut k, "t1", &encode_u64(1000)).expect("open must succeed");
    assert!(names_present(&k, "t1"));
    run_drop(&mut k, h).expect("drop must succeed");
    assert!(names_absent(&k, "t1"));
}

#[test]
fn single_process_read() {
    let mut k = Kernel::default();
    let mut h = run_open(&mut k, "t2", &encode_u64(1000)).expect("open must succeed");
    let v = run_read_value(&mut k, &mut h).expect("read must succeed");
    run_drop(&mut k, h).expect("drop must succeed");
    assert_eq!(v, 1000);
    assert!(names_absent(&k, "t2"));
}

#[test]
fn single_process_mutate() {
    let mut k = Kernel::default();
    let mut h = run_open(&mut k, "t3", &encode_u64(1000)).expect("open must succeed");
    run_mutate_bytes(&mut k, &mut h, &encode_u64(100)).expect("mutate must succeed");
    let v = run_read_value(&mut k, &mut h).expect("read must succeed");
    run_drop(&mut k, h).expect("drop must succeed");
    assert_eq!(v, 100);
    assert!(names_absent(&k, "t3"));
}

#[test]
fn multi_process_read() {
    let mut k = Kernel::default();
    let mut handles: Vec<Handle> = Vec::new();
    for _ in 0..6 {
        handles.push(run_open(&mut k, "t4", &encode_u64(1000)).expect("open must succeed"));
    }
    // counter accuracy at a quiescent moment: one count per live handle
    let counter = shared_resource::names::counter_name("t4");
    assert_eq!(k.sems[&counter], 6);
    for h in handles.iter_mut() {
        let v = run_read_value(&mut k, h).expect("read must succeed");
        assert_eq!(v, 1000);
    }
    let mut n = 6i64;
    for h in handles {
        run_drop(&mut k, h).expect("drop must succeed");
        n -= 1;
        if n > 0 {
            assert_eq!(k.sems[&counter], n);
            assert!(names_present(&k, "t4"));
        }
    }
    assert!(names_absent(&k, "t4"));
}

#[test]
fn multi_process_mutate() {
    let mut k = Kernel::default();
    // the writer opens first and writes 100; the reader then observes it
    let mut writer = run_open(&mut k, "t5", &encode_u64(1000)).expect("open must succeed");
    run_mutate_bytes(&mut k, &mut writer, &encode_u64(100)).expect("mutate must succeed");
    let mut reader = run_open(&mut k, "t5", &encode_u64(1000)).expect("open must succeed");
    let v = run_read_value(&mut k, &mut reader).expect("read must succeed");
    assert_eq!(v, 100);
    run_drop(&mut k, writer).expect("drop must succeed");
    let v = run_read_value(&mut k, &mut reader).expect("read must succeed");
    assert_eq!(v, 100);
    run_drop(&mut k, reader).expect("drop must succeed");
    assert!(names_absent(&k, "t5"));
}

#[test]
fn size_changing_mutate_round_trips_the_payload() {
    let mut k = Kernel::default();
    let short = vec![7u8, 8, 9];
    let long = vec![1u8, 2, 3, 4, 5, 6, 7, 8, 9, 10];
    let mut h = run_open(&mut k, "t6", &short).expect("open must succeed");
    let shm = shared_resource::names::segment_name("t6");
    assert_eq!(k.shms[&shm].len(), 8 + 3);

    run_mutate_bytes(&mut k, &mut h, &long).expect("grow must succeed");
    assert_eq!(k.shms[&shm].len(), 8 + 10);
    assert_eq!(run_read_bytes(&mut k, &mut h).expect("read must succeed"), long);

    run_mutate_bytes(&mut k, &mut h, &short).expect("shrink must succeed");
    assert_eq!(k.shms[&shm].len(), 8 + 3);
    assert_eq!(run_read_bytes(&mut k, &mut h).expect("read must succeed"), short);
    run_drop(&mut k, h).expect("drop must succeed");
    assert!(names_absent(&k, "t6"));
}

#[test]
fn peer_attach_keeps_the_creator_payload() {
    let mut k = Kernel::default();
    let mut first = run_open(&mut k, "t7", &encode_u64(1000)).expect("open must succeed");
    // a later opener offers a different initial value; the creator's wins
    let mut second = run_open(&mut k, "t7", &encode_u64(555)).expect("open must succeed");
    assert_eq!(run_read_value(&mut k, &mut first).unwrap(), 1000);
    assert_eq!(run_read_value(&mut k, &mut second).unwrap(), 1000);
    run_drop(&mut k, second).expect("drop must succeed");
    run_drop(&mut k, first).expect("drop must succeed");
    assert!(names_absent(&k, "t7"));
}

#[test]
fn hung_holder_times_out_peers() {
    let mut k = Kernel::default();
    let hung = run_open(&mut k, "t8", &encode_u64(1000)).expect("open must succeed");
    let mut peer = run_open(&mut k, "t8", &encode_u64(1000)).expect("open must succeed");
    // the hung holder takes the mutex and never posts it
    lock(&mut k, &hung).expect("lock must succeed");
    match run_read_value(&mut k, &mut peer) {
        Err(e) => assert!(e.is_semaphore_error()),
        Ok(_) => panic!("a read under a hung holder must time out"),
    }
}
