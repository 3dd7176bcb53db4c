use io_tether::connect::{Attempt, Progress};
use io_tether::{Action, Awaited, Context, Io, Resolver, Tether};
use std::future::Future;
use std::io::{Error, ErrorKind};
use std::ops::ControlFlow;
use std::pin::Pin;
use std::task::Poll;
use tokio::io::{AsyncRead, AsyncReadExt, AsyncWriteExt, DuplexStream, ReadBuf};
use tokio::sync::mpsc::{unbounded_channel, UnboundedReceiver, UnboundedSender};

type PinFut<O> = Pin<Box<dyn Future<Output = O> + 'static + Send>>;

/// Connects by handing one end of a pipe to whoever listens.
struct Pipe(UnboundedSender<DuplexStream>);

/// A connector, and the ends of the pipes that it makes.
fn listen() -> (Pipe, UnboundedReceiver<DuplexStream>) {
    let (sender, listener) = unbounded_channel();
    (Pipe(sender), listener)
}

impl Io for Pipe {
    type Output = DuplexStream;
    type Connecting = PinFut<Result<DuplexStream, Error>>;

    fn connect(&mut self) -> Self::Connecting {
        let sender = self.0.clone();
        Box::pin(async move {
            let (near, far) = tokio::io::duplex(64);
            match sender.send(far) {
                Ok(()) => Ok(near),
                Err(_) => Err(Error::from(ErrorKind::ConnectionRefused)),
            }
        })
    }
}

struct Stream<R: Resolver<Pipe>>(Tether<Pipe, R>);

impl<R> Stream<R>
where
    R: Resolver<Pipe>,
{
    async fn connect(connector: Pipe, resolver: R) -> Result<Self, Error> {
        let (mut attempt, mut connecting) = Attempt::start(connector, resolver);
        loop {
            match attempt.resolve(connecting.await) {
                Progress::Established(established, notifying) => {
                    if let Some(notifying) = notifying {
                        notifying.await;
                    }
                    return Ok(Stream(established.finish()));
                }
                Progress::Unreached(unreached, deciding) => {
                    (attempt, connecting) = match unreached.resolve(deciding.await) {
                        Ok(next) => next,
                        Err((_connector, _resolver, error)) => return Err(error),
                    };
                }
            }
        }
    }
}

impl<R> AsyncRead for Stream<R>
where
    R: Resolver<Pipe> + Unpin,
    R::Deciding: Unpin,
    R::Notifying: Unpin,
{
    fn poll_read(
        self: Pin<&mut Self>,
        cx: &mut std::task::Context<'_>,
        buf: &mut ReadBuf<'_>,
    ) -> Poll<Result<(), Error>> {
        let tether = &mut self.get_mut().0;
        loop {
            let step = match tether.waits_for() {
                Awaited::Operation => {
                    let before = buf.filled().len();
                    let polled = Pin::new(tether.io_mut()).poll_read(cx, buf);
                    tether.poll_read_inner(polled, before, buf.filled().len())
                }
                Awaited::Decision(deciding) => {
                    let decided = Pin::new(deciding).poll(cx).map(Action::from);
                    tether.resolve_disconnected(decided, Ok(()))
                }
                Awaited::Connection(connecting) => {
                    let connected = Pin::new(connecting).poll(cx);
                    tether.resolve_reconnecting(connected).map(ControlFlow::Continue)
                }
                Awaited::Notice(notifying) => {
                    let notified = match notifying {
                        Some(notifying) => Pin::new(notifying).poll(cx),
                        None => Poll::Ready(()),
                    };
                    tether.resolve_reconnected(notified).map(ControlFlow::Continue)
                }
            };
            match step {
                Poll::Pending => return Poll::Pending,
                Poll::Ready(ControlFlow::Continue(())) => {}
                Poll::Ready(ControlFlow::Break(result)) => return Poll::Ready(result),
            }
        }
    }
}

struct Value(bool);

impl<T> Resolver<T> for Value {
    type Deciding = PinFut<bool>;
    type Notifying = PinFut<()>;

    fn disconnected(&mut self, _context: &Context, _connector: &mut T) -> PinFut<bool> {
        let val = self.0;
        Box::pin(async move { val })
    }
}

struct Once;

impl<T> Resolver<T> for Once {
    type Deciding = PinFut<bool>;
    type Notifying = PinFut<()>;

    fn disconnected(&mut self, context: &Context, _connector: &mut T) -> PinFut<bool> {
        let retry = context.total_reconnect_attempts() < 1;

        Box::pin(async move { retry })
    }
}

fn block_on<F: Future>(future: F) -> F::Output {
    tokio::runtime::Builder::new_current_thread()
        .enable_all()
        .build()
        .unwrap()
        .block_on(future)
}

#[test]
fn reconnect_value_is_respected() {
    block_on(async {
        let (connector, mut listener) = listen();
        tokio::spawn(async move {
            let mut stream = listener.recv().await.unwrap();
            stream.write_all(b"foobar").await.unwrap();
            stream.shutdown().await.unwrap();
        });

        let mut stream = Stream::connect(connector, Value(false)).await.unwrap();
        let mut output = String::new();
        stream.read_to_string(&mut output).await.unwrap();
        assert_eq!(&output, "foobar");
    });
}

#[test]
fn disconnect_is_retried() {
    block_on(async {
        let (connector, mut listener) = listen();
        tokio::spawn(async move {
            let mut connections = 0;
            loop {
                let mut stream = listener.recv().await.unwrap();
                stream.write_u8(connections).await.unwrap();
                connections += 1;
            }
        });

        let mut stream = Stream::connect(connector, Once).await.unwrap();
        let mut buf = Vec::new();
        stream.read_to_end(&mut buf).await.unwrap();
        assert_eq!(buf.as_slice(), &[0, 1])
    });
}

struct Callback(UnboundedSender<()>);

impl<T> Resolver<T> for Callback {
    type Deciding = PinFut<bool>;
    type Notifying = PinFut<()>;

    fn disconnected(&mut self, _context: &Context, _connector: &mut T) -> PinFut<bool> {
        let sender = self.0.clone();
        Box::pin(async move {
            tokio::time::sleep(std::time::Duration::from_millis(5)).await;
            sender.send(()).unwrap();
            true
        })
    }
}

#[test]
fn reads_go_on_over_a_reconnect() {
    block_on(async {
        let (connector, mut listener) = listen();
        tokio::spawn(async move {
            loop {
                let mut stream = listener.recv().await.unwrap();
                stream.write_all(b"foobar").await.unwrap();
                stream.shutdown().await.unwrap();
            }
        });

        let (sender, mut called) = unbounded_channel();
        let handle = tokio::spawn(async move {
            let mut stream = Stream::connect(connector, Callback(sender)).await.unwrap();
            let mut buf = [0; 12];
            stream.read_exact(&mut buf).await.unwrap();
            assert_eq!(&buf, b"foobarfoobar");
        });

        assert!(called.recv().await.is_some());
        handle.await.unwrap();
    });
}
