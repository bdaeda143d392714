use avec::AVec;
use avec::SharedAlloc;

#[test]
fn test_many_pushes() {
    let mut rv: AVec<i32, SharedAlloc> = AVec::new();
    for i in 0..1000 {
        rv.push(i);
    }
    let expect: Vec<i32> = (0..1000).collect();
    assert_eq!(rv.to_vec(), expect);
}

#[test]
fn test_pushes_pops() {
    let mut rv: AVec<i32, SharedAlloc> = AVec::new();
    for i in 0..1000 {
        rv.push(i);
    }
    let _ = rv.pop();
    rv.push(!0);
    let mut expect: Vec<i32> = (0..999).collect();
    expect.push(!0);
    assert_eq!(rv.to_vec(), expect);
}

#[test]
fn test_extend() {
    let mut rv: AVec<i32, SharedAlloc> = AVec::new();
    for i in 0..1000 {
        rv.push(i);
    }
    let mut expect: Vec<i32> = (0..1000).collect();
    let tmp = expect.clone();
    expect.extend(rv.to_vec());
    rv.extend(tmp);
    assert_eq!(rv.to_vec(), expect);
}
