use pipemonitor::pipe::Pipe;
use std::sync::Arc;

#[test]
fn shared_pipe_holds_the_newest_after_both_tasks_end() {
    for capacity in [1usize, 5, 10, 12] {
        let pipe = Pipe::<u32>::new_shared(capacity, String::from("tcp://127.0.0.1:5555"), String::from("SharedPipe"));
        let producer_pipe = Arc::clone(&pipe);
        let consumer_pipe = Arc::clone(&pipe);
        assert_eq!(Arc::strong_count(&pipe), 3);
        let produce = |i: u32| {
            let mut pipe = producer_pipe.lock().unwrap();
            let (evicted, report) = pipe.push_back(i);
            assert_eq!(evicted, if i as usize > capacity { Some(i - capacity as u32) } else { None });
            assert_eq!(report.name, "SharedPipe");
            assert_eq!(report.size, (i as usize).min(capacity));
            assert_eq!(report.max_capacity, capacity);
        };
        let consume = || {
            let mut pipe = consumer_pipe.lock().unwrap();
            let len = pipe.len();
            assert!(len <= capacity);
            if len > 0 {
                let front = pipe[0];
                for k in 0..len {
                    assert_eq!(pipe[k], front + k as u32);
                }
            }
        };
        // The producer pushes every 100 ms, the consumer looks every 150 ms.
        let mut pushed = 0u32;
        let mut looked = 0u32;
        while pushed < 10 || looked < 10 {
            if pushed < 10 && (looked >= 10 || pushed * 100 <= (looked + 1) * 150) {
                pushed += 1;
                produce(pushed);
            } else {
                looked += 1;
                consume();
            }
        }
        let mut pipe = pipe.lock().unwrap();
        let kept = capacity.min(10);
        assert_eq!(pipe.len(), kept);
        for k in 0..kept {
            assert_eq!(pipe[k], (10 - kept + 1 + k) as u32);
        }
    }
}
