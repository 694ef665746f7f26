use podo_std_eye::producer::us_per_frame;
use podo_std_eye::reader::reader_get_step;
use podo_std_eye::{Error, Frame, Image, Queue, VideoMeta};

fn meta() -> VideoMeta {
    VideoMeta { codec: None, color: None, width: 4, height: 2, fps: 30 }
}

fn gray_image(fill: u8) -> Image {
    Image::from_bytes(2, 4, 0, vec![fill; 8]).unwrap()
}

/// Pops in a spin loop, as a consumer thread would.
fn pop_blocking(q: &mut Queue, frame: &mut Frame) -> Result<(), Error> {
    loop {
        match q.pop_inner(frame)? {
            true => return Ok(()),
            false => panic!("nothing to pop and no producer to wait for"),
        }
    }
}

#[test]
fn single_consumer_32_frames() {
    // A video file at 30 fps paces at 33 ms per frame and the producer uses
    // backpressure, so a lock-step consumer sees every count once.
    assert_eq!(us_per_frame(30), 33_333);
    let mut q = Queue::new(2);
    q.start().unwrap();
    let mut frame = Frame::new(meta()).unwrap();
    for i in 1..=32u64 {
        let back = q.push_inner_inplace(gray_image(i as u8), i as i64, true);
        assert!(back.is_none(), "backpressure blocked push {}", i);
        pop_blocking(&mut q, &mut frame).unwrap();
        assert_eq!(frame.count, i);
        assert_eq!(frame.timestamp, i as i64);
        assert_eq!(frame.image.data, vec![i as u8; 8]);
    }
    assert_eq!(frame.count, 32);
}

#[test]
fn ten_consumers_strictly_increasing() {
    // Ten consumers share the ring; each one's counts are strictly
    // increasing, though the sequences differ.
    let mut q = Queue::new(2);
    q.start().unwrap();
    let mut frames: Vec<Frame> = (0..10).map(|_| Frame::new(meta()).unwrap()).collect();
    let mut pushes: u64 = 0;
    for round in 0..32usize {
        pushes += 1;
        assert!(q.push_inner_inplace(gray_image(round as u8), pushes as i64, false).is_none());
        for (k, frame) in frames.iter_mut().enumerate() {
            // Every third consumer skips most rounds: it lags.
            if k % 3 == 0 || round % (k + 1) == 0 {
                let before = frame.count;
                if q.pop_inner(frame).unwrap() {
                    assert!(frame.count > before);
                    assert!(frame.count <= pushes);
                    assert!(frame.count + 1 >= pushes);
                }
            }
        }
    }
}

#[test]
fn slow_consumer_bounded_lag() {
    // A free-running producer overwrites at will; a slow consumer still
    // never reads more than size - 1 behind the head it observed.
    let mut q = Queue::new(2);
    q.start().unwrap();
    for i in 1..=50u64 {
        assert!(q.push_inner_inplace(gray_image(i as u8), i as i64, false).is_none());
    }
    let mut frame = Frame::new(meta()).unwrap();
    pop_blocking(&mut q, &mut frame).unwrap();
    // head is 50; with two slots the consumer picks push 49, count 50.
    assert_eq!(frame.count, 50);
    assert_eq!(frame.image.data, vec![50u8; 8]);
}

#[test]
fn backpressure_blocks_until_consumed() {
    let mut q = Queue::new(2);
    q.start().unwrap();
    // First push fits; the second would overwrite the unconsumed slot.
    assert!(q.push_inner_inplace(gray_image(1), 1, true).is_none());
    let refused = q.push_inner_inplace(gray_image(2), 2, true);
    assert!(refused.is_some());
    assert_eq!(refused.unwrap().data, vec![2u8; 8]);
    // One consumption makes room for exactly one more push.
    let mut frame = Frame::new(meta()).unwrap();
    pop_blocking(&mut q, &mut frame).unwrap();
    assert_eq!(frame.count, 1);
    assert!(q.push_inner_inplace(gray_image(2), 2, true).is_none());
    assert!(q.push_inner_inplace(gray_image(3), 3, true).is_some());
}

#[test]
fn no_backpressure_never_blocks() {
    // A halted consumer cannot stall a live producer.
    let mut q = Queue::new(2);
    q.start().unwrap();
    for i in 0..100u64 {
        assert!(q.push_inner_inplace(gray_image(i as u8), i as i64, false).is_none());
    }
}

#[test]
fn pop_fails_not_running() {
    let mut q = Queue::new(2);
    let mut frame = Frame::new(meta()).unwrap();
    assert_eq!(q.pop_inner(&mut frame), Err(Error::NotRunning));
    q.start().unwrap();
    let _ = q.push_inner_inplace(gray_image(1), 1, false);
    assert!(q.stop());
    assert_eq!(q.pop_inner(&mut frame), Err(Error::NotRunning));
}

#[test]
fn start_twice_already_running() {
    let mut q = Queue::new(2);
    assert_eq!(q.start(), Ok(()));
    assert_eq!(q.start(), Err(Error::AlreadyRunning));
    assert!(q.is_running());
    assert!(q.stop());
    assert!(!q.stop());
    assert_eq!(q.start(), Ok(()));
}

#[test]
fn push_inner_writes_through_writer() {
    let mut q = Queue::new(2);
    q.start().unwrap();
    let pushed = q.push_inner(
        |_previous: Image| Ok(gray_image(9)),
        77,
        false,
    );
    assert_eq!(pushed, Ok(true));
    let mut frame = Frame::new(meta()).unwrap();
    pop_blocking(&mut q, &mut frame).unwrap();
    assert_eq!(frame.image.data, vec![9u8; 8]);
    assert_eq!(frame.timestamp, 77);
}

#[test]
fn push_inner_surfaces_writer_error() {
    let mut q = Queue::new(2);
    q.start().unwrap();
    let pushed = q.push_inner(|_previous: Image| Err(Error::Io), 5, false);
    assert_eq!(pushed, Err(Error::Io));
    // The head did not advance: there is nothing to pop.
    let mut frame = Frame::new(meta()).unwrap();
    assert_eq!(q.pop_inner(&mut frame), Ok(false));
}

#[test]
fn get_step_allocates_then_delivers() {
    let mut q = Queue::new(2);
    q.start().unwrap();
    let m = meta();
    let mut slot: Option<Frame> = None;
    // Nothing pushed yet: the step allocates the frame and reports no
    // delivery.
    assert_eq!(reader_get_step(&mut q, &mut slot, &m), Ok(false));
    assert_eq!(slot.as_ref().unwrap().count, 0);
    assert_eq!(slot.as_ref().unwrap().meta, m);
    // After a push the same slot receives the frame.
    assert!(q.push_inner_inplace(gray_image(4), 40, false).is_none());
    assert_eq!(reader_get_step(&mut q, &mut slot, &m), Ok(true));
    let f = slot.as_ref().unwrap();
    assert_eq!(f.count, 1);
    assert_eq!(f.timestamp, 40);
    assert_eq!(f.image.data, vec![4u8; 8]);
    // A stopped ring refuses.
    q.stop();
    assert_eq!(reader_get_step(&mut q, &mut slot, &m), Err(Error::NotRunning));
}
