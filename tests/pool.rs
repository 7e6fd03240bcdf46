use std::future::Future;
use std::pin::Pin;
use std::time::{Duration, Instant};

use directory::{DirectoryError, ImapError, PoolConfig};

/// A connection manager whose connections are plain numbers.
struct Counter;

type Boxed<'a, T> = Pin<Box<dyn Future<Output = T> + Send + 'a>>;

impl bb8::ManageConnection for Counter {
    type Connection = u32;
    type Error = ImapError;

    fn connect<'life0, 'a>(&'life0 self) -> Boxed<'a, Result<u32, ImapError>>
    where
        'life0: 'a,
        Self: 'a,
    {
        Box::pin(async { Ok(7) })
    }

    fn is_valid<'life0, 'life1, 'a>(
        &'life0 self,
        _conn: &'life1 mut u32,
    ) -> Boxed<'a, Result<(), ImapError>>
    where
        'life0: 'a,
        'life1: 'a,
        Self: 'a,
    {
        Box::pin(async { Ok(()) })
    }

    fn has_broken(&self, _conn: &mut u32) -> bool {
        false
    }
}

#[test]
fn saturated_pool_times_out_then_serves_after_release() {
    let config = PoolConfig::new(None, 1, None, None, 100, true).unwrap();
    let runtime = ldap3::tokio::runtime::Builder::new_current_thread()
        .enable_time()
        .build()
        .unwrap();
    runtime.block_on(async {
        let pool = bb8::Pool::builder()
            .min_idle(config.min_idle)
            .max_size(config.max_size)
            .connection_timeout(Duration::from_millis(config.connection_timeout_ms))
            .test_on_check_out(config.test_on_check_out)
            .build(Counter)
            .await
            .unwrap();

        let held = pool.get().await.unwrap();
        assert_eq!(*held, 7);

        let started = Instant::now();
        let second = pool.get().await;
        let waited = started.elapsed();
        match second {
            Err(e) => assert!(matches!(DirectoryError::from(e), DirectoryError::TimedOut)),
            Ok(_) => panic!("a saturated pool handed out a second connection"),
        }
        assert!(waited >= Duration::from_millis(100));
        assert!(waited < Duration::from_secs(5));
        assert_eq!(pool.state().connections, 1);

        drop(held);
        let started = Instant::now();
        let third = pool.get().await.unwrap();
        assert_eq!(*third, 7);
        assert!(started.elapsed() < Duration::from_millis(100));
        assert_eq!(pool.state().connections, 1);
    });
}
