use peer_sync::networking::Mode;
use peer_sync::packet::PACKET_SIZE;
use peer_sync::transport::{
    connection_plan, opponent, receive_endpoint, recv_packet_buffer, send_endpoint,
    ConnectionPlan, Endpoint, Route, TransportError, LOOPBACK,
};

fn local(port: u16) -> Endpoint {
    Endpoint { address: LOOPBACK, port }
}

#[test]
fn loopback_is_127_0_0_1() {
    assert_eq!(LOOPBACK, u32::from_be_bytes([127, 0, 0, 1]));
}

#[test]
fn first_player_sockets() {
    assert_eq!(
        connection_plan(Mode::MultiplayerPlayer1),
        ConnectionPlan {
            send: Route { local: local(34254), remote: local(34256) },
            receive: Route { local: local(34255), remote: local(34257) },
        }
    );
}

#[test]
fn second_player_sockets() {
    assert_eq!(
        connection_plan(Mode::MultiplayerPlayer2),
        ConnectionPlan {
            send: Route { local: local(34257), remote: local(34255) },
            receive: Route { local: local(34256), remote: local(34254) },
        }
    );
}

#[test]
fn endpoints_of_each_player() {
    assert_eq!(send_endpoint(Mode::MultiplayerPlayer1), local(34254));
    assert_eq!(receive_endpoint(Mode::MultiplayerPlayer1), local(34255));
    assert_eq!(send_endpoint(Mode::MultiplayerPlayer2), local(34257));
    assert_eq!(receive_endpoint(Mode::MultiplayerPlayer2), local(34256));
}

#[test]
fn opponent_is_the_other_player() {
    assert_eq!(opponent(Mode::MultiplayerPlayer1), Mode::MultiplayerPlayer2);
    assert_eq!(opponent(Mode::MultiplayerPlayer2), Mode::MultiplayerPlayer1);
}

#[test]
fn sockets_of_the_two_players_meet() {
    for mode in [Mode::MultiplayerPlayer1, Mode::MultiplayerPlayer2] {
        let mine = connection_plan(mode);
        let theirs = connection_plan(opponent(mode));
        assert_eq!(mine.send.remote, theirs.receive.local);
        assert_eq!(mine.send.local, theirs.receive.remote);
        assert_eq!(mine.receive.remote, theirs.send.local);
        assert_eq!(mine.receive.local, theirs.send.remote);
    }
}

#[test]
fn no_two_sockets_share_a_local_endpoint() {
    let first = connection_plan(Mode::MultiplayerPlayer1);
    let second = connection_plan(Mode::MultiplayerPlayer2);
    let bound = [first.send.local, first.receive.local, second.send.local, second.receive.local];
    for i in 0..bound.len() {
        for j in 0..i {
            assert_ne!(bound[i], bound[j]);
        }
    }
}

#[test]
fn eighty_bytes_are_a_datagram() {
    let mut buf = [0u8; PACKET_SIZE];
    for i in 0..PACKET_SIZE {
        buf[i] = i as u8;
    }
    assert_eq!(recv_packet_buffer(Some(80), buf), Ok(buf));
}

#[test]
fn failed_receive_is_no_data() {
    assert_eq!(recv_packet_buffer(None, [0u8; PACKET_SIZE]), Err(TransportError::NoData));
    assert_eq!(recv_packet_buffer(None, [7u8; PACKET_SIZE]), Err(TransportError::NoData));
}

#[test]
fn any_other_length_is_a_size_mismatch() {
    for amount in [0usize, 1, 4, 76, 79, 81, 160, usize::MAX] {
        assert_eq!(
            recv_packet_buffer(Some(amount), [1u8; PACKET_SIZE]),
            Err(TransportError::SizeMismatch)
        );
    }
}
