use ratjack::deck::{Carta, Palo};
use ratjack::logic::repartir_cartas;
use ratjack::player::Jugador;
use ratjack::ui::{manejar_evento, reiniciar_partida, AppState, GameState, Tecla};

fn carta(valor: u8, palo: Palo) -> Carta {
    Carta { valor, palo }
}

#[test]
fn test_app_state_new() {
    let app = AppState::new();
    assert_eq!(app.estado, GameState::Inicio);
    assert_eq!(app.mensaje, "¡Bienvenido a RatJack!");
    assert_eq!(app.opciones, vec!["Pedir carta", "Plantarse"]);
    assert_eq!(app.seleccion, 0);
    assert!(!app.mostrar_todas_cartas_banca);
}

#[test]
fn test_actualizar_opciones_turno_jugador() {
    let mut app = AppState::new();
    app.estado = GameState::TurnoJugador;
    app.seleccion = 1;
    app.mostrar_todas_cartas_banca = true;
    app.actualizar_opciones();
    assert_eq!(app.opciones, vec!["Pedir carta", "Plantarse"]);
    assert_eq!(app.seleccion, 0);
    assert!(!app.mostrar_todas_cartas_banca);
}

#[test]
fn test_actualizar_opciones_fin_juego() {
    let mut app = AppState::new();
    app.estado = GameState::FinJuego;
    app.actualizar_opciones();
    assert_eq!(app.opciones, vec!["Nueva partida", "Salir"]);
    assert_eq!(app.seleccion, 0);
    assert!(app.mostrar_todas_cartas_banca);
}

#[test]
fn test_game_state_default() {
    assert_eq!(GameState::default(), GameState::Inicio);
}

#[test]
fn test_reiniciar_partida() {
    let mut jugador = Jugador::nuevo();
    let mut banca = Jugador::nuevo();
    jugador.partidas_ganadas = 3;
    banca.partidas_ganadas = 2;
    let mut baraja: Vec<Carta> = Vec::new();

    reiniciar_partida(&mut jugador, &mut banca, &mut baraja);

    assert_eq!(jugador.mano.len(), 2);
    assert_eq!(banca.mano.len(), 2);
    assert_eq!(baraja.len(), 48);
    assert_eq!(jugador.puntaje(), jugador.puntos);
    assert_eq!(banca.puntaje(), banca.puntos);
    assert!(jugador.puntos <= 21);
    assert!(banca.puntos <= 21);
    assert_eq!(jugador.partidas_ganadas, 3);
    assert_eq!(banca.partidas_ganadas, 2);
}

#[test]
fn test_inicio_confirmar_pasa_al_turno() {
    let mut app = AppState::new();
    let mut jugador = Jugador::nuevo();
    let mut banca = Jugador::nuevo();
    let mut baraja: Vec<Carta> = Vec::new();
    reiniciar_partida(&mut jugador, &mut banca, &mut baraja);

    let salir = manejar_evento(&mut app, &mut jugador, &mut banca, &mut baraja, Tecla::Intro);
    assert!(!salir);
    assert_eq!(app.estado, GameState::TurnoJugador);
    assert_eq!(app.opciones, vec!["Pedir carta", "Plantarse"]);
    assert!(!app.mostrar_todas_cartas_banca);
}

#[test]
fn test_inicio_salir() {
    let mut app = AppState::new();
    let mut jugador = Jugador::nuevo();
    let mut banca = Jugador::nuevo();
    let mut baraja: Vec<Carta> = Vec::new();
    reiniciar_partida(&mut jugador, &mut banca, &mut baraja);

    let salir = manejar_evento(
        &mut app,
        &mut jugador,
        &mut banca,
        &mut baraja,
        Tecla::Letra('q'),
    );
    assert!(salir);
    assert_eq!(app.estado, GameState::Inicio);
}

#[test]
fn test_tecla_desconocida_no_cambia_nada() {
    let mut app = AppState::new();
    let mut jugador = Jugador::nuevo();
    let mut banca = Jugador::nuevo();
    let mut baraja: Vec<Carta> = Vec::new();
    reiniciar_partida(&mut jugador, &mut banca, &mut baraja);
    let mano_antes = jugador.mano.clone();

    let salir = manejar_evento(&mut app, &mut jugador, &mut banca, &mut baraja, Tecla::Otra);
    assert!(!salir);
    assert_eq!(app.estado, GameState::Inicio);
    assert_eq!(app.mensaje, "¡Bienvenido a RatJack!");
    assert_eq!(jugador.mano, mano_antes);
    assert_eq!(baraja.len(), 48);
}

#[test]
fn test_pedir_carta_roba_una() {
    let mut app = AppState::new();
    app.estado = GameState::TurnoJugador;
    let mut jugador = Jugador::nuevo();
    let mut banca = Jugador::nuevo();
    // El jugador lleva 2 y 3; robara el 4 de la cima.
    let mut baraja = vec![
        carta(10, Palo::Picas),
        carta(4, Palo::Corazones),
    ];
    jugador.mano = vec![carta(2, Palo::Corazones), carta(3, Palo::Corazones)];
    jugador.puntos = jugador.puntaje();
    banca.mano = vec![carta(7, Palo::Diamantes), carta(8, Palo::Diamantes)];
    banca.puntos = banca.puntaje();

    let salir = manejar_evento(
        &mut app,
        &mut jugador,
        &mut banca,
        &mut baraja,
        Tecla::Letra('p'),
    );
    assert!(!salir);
    assert_eq!(jugador.mano.len(), 3);
    assert_eq!(jugador.puntos, 9);
    assert_eq!(baraja.len(), 1);
    assert_eq!(app.estado, GameState::TurnoJugador);
}

#[test]
fn test_pedir_carta_y_pasarse() {
    let mut app = AppState::new();
    app.estado = GameState::TurnoJugador;
    let mut jugador = Jugador::nuevo();
    let mut banca = Jugador::nuevo();
    let mut baraja = vec![carta(10, Palo::Picas)];
    jugador.mano = vec![carta(10, Palo::Corazones), carta(5, Palo::Corazones)];
    jugador.puntos = jugador.puntaje();
    banca.mano = vec![carta(7, Palo::Diamantes), carta(8, Palo::Diamantes)];
    banca.puntos = banca.puntaje();

    let salir = manejar_evento(&mut app, &mut jugador, &mut banca, &mut baraja, Tecla::Intro);
    assert!(!salir);
    assert_eq!(jugador.puntos, 25);
    assert_eq!(app.estado, GameState::FinJuego);
    assert_eq!(app.mensaje, "Te has pasado. ¡La banca gana!");
    assert_eq!(app.opciones, vec!["Nueva partida", "Salir"]);
    assert!(app.mostrar_todas_cartas_banca);
    assert_eq!(banca.partidas_ganadas, 1);
    assert_eq!(jugador.partidas_ganadas, 0);
}

#[test]
fn test_plantarse_pasa_a_la_banca() {
    let mut app = AppState::new();
    app.estado = GameState::TurnoJugador;
    let mut jugador = Jugador::nuevo();
    let mut banca = Jugador::nuevo();
    let mut baraja = vec![carta(10, Palo::Picas)];
    jugador.mano = vec![carta(10, Palo::Corazones), carta(9, Palo::Corazones)];
    jugador.puntos = jugador.puntaje();
    banca.mano = vec![carta(7, Palo::Diamantes), carta(8, Palo::Diamantes)];
    banca.puntos = banca.puntaje();

    let salir = manejar_evento(
        &mut app,
        &mut jugador,
        &mut banca,
        &mut baraja,
        Tecla::Letra('s'),
    );
    assert!(!salir);
    assert_eq!(app.estado, GameState::TurnoBanca);
    assert_eq!(app.mensaje, "Turno de la banca");
    assert_eq!(baraja.len(), 1);
}

#[test]
fn test_turno_banca_roba_hasta_17_y_resuelve() {
    let mut app = AppState::new();
    app.estado = GameState::TurnoBanca;
    let mut jugador = Jugador::nuevo();
    let mut banca = Jugador::nuevo();
    // La banca lleva 16 y roba el 5 de la cima: 21 y se planta.
    let mut baraja = vec![carta(9, Palo::Picas), carta(5, Palo::Picas)];
    jugador.mano = vec![carta(10, Palo::Corazones), carta(9, Palo::Corazones)];
    jugador.puntos = jugador.puntaje();
    banca.mano = vec![carta(10, Palo::Diamantes), carta(6, Palo::Diamantes)];
    banca.puntos = banca.puntaje();

    let salir = manejar_evento(&mut app, &mut jugador, &mut banca, &mut baraja, Tecla::Otra);
    assert!(!salir);
    assert_eq!(banca.mano.len(), 3);
    assert_eq!(banca.puntos, 21);
    assert_eq!(baraja.len(), 1);
    assert_eq!(app.estado, GameState::FinJuego);
    assert_eq!(app.mensaje, "La banca gana.");
    assert_eq!(banca.partidas_ganadas, 1);
    assert_eq!(jugador.partidas_ganadas, 0);
    assert!(app.mostrar_todas_cartas_banca);
}

#[test]
fn test_nueva_partida_desde_fin() {
    let mut app = AppState::new();
    app.estado = GameState::FinJuego;
    let mut jugador = Jugador::nuevo();
    let mut banca = Jugador::nuevo();
    jugador.partidas_ganadas = 5;
    let mut baraja: Vec<Carta> = Vec::new();

    let salir = manejar_evento(
        &mut app,
        &mut jugador,
        &mut banca,
        &mut baraja,
        Tecla::Letra('n'),
    );
    assert!(!salir);
    assert_eq!(app.estado, GameState::TurnoJugador);
    assert_eq!(app.mensaje, "¡Nueva partida!");
    assert_eq!(jugador.mano.len(), 2);
    assert_eq!(banca.mano.len(), 2);
    assert_eq!(baraja.len(), 48);
    assert_eq!(jugador.partidas_ganadas, 5);
}

#[test]
fn test_partida_completa() {
    // Una partida entera sobre una baraja preparada: reparto, dos
    // cartas pedidas, plantarse, turno de la banca y resolucion.
    let mut app = AppState::new();
    let mut jugador = Jugador::nuevo();
    let mut banca = Jugador::nuevo();
    let mut baraja = vec![
        carta(5, Palo::Picas),      // la roba la banca en su turno
        carta(5, Palo::Corazones),  // segunda carta pedida
        carta(4, Palo::Corazones),  // primera carta pedida
        carta(6, Palo::Corazones),  // segunda de la banca
        carta(3, Palo::Corazones),  // segunda del jugador
        carta(10, Palo::Corazones), // primera de la banca
        carta(2, Palo::Corazones),  // primera del jugador
    ];
    repartir_cartas(&mut jugador, &mut banca, &mut baraja);
    assert_eq!(jugador.puntos, 5);
    assert_eq!(banca.puntos, 16);

    app.estado = GameState::TurnoJugador;
    assert!(!manejar_evento(&mut app, &mut jugador, &mut banca, &mut baraja, Tecla::Intro));
    assert!(!manejar_evento(&mut app, &mut jugador, &mut banca, &mut baraja, Tecla::Letra('1')));
    assert_eq!(jugador.puntos, 14);
    assert!(jugador.puntos <= 21);

    assert!(!manejar_evento(&mut app, &mut jugador, &mut banca, &mut baraja, Tecla::Letra('2')));
    assert_eq!(app.estado, GameState::TurnoBanca);

    assert!(!manejar_evento(&mut app, &mut jugador, &mut banca, &mut baraja, Tecla::Otra));
    assert!(banca.puntos >= 17);
    assert_eq!(banca.puntos, 21);
    assert_eq!(app.estado, GameState::FinJuego);
    let mensajes = [
        "Te has pasado. ¡La banca gana!",
        "La banca se ha pasado. ¡Has ganado!",
        "¡Has ganado!",
        "La banca gana.",
        "Empate.",
    ];
    assert!(mensajes.contains(&app.mensaje.as_str()));
    assert_eq!(app.mensaje, "La banca gana.");
    assert_eq!(jugador.partidas_ganadas + banca.partidas_ganadas, 1);
}

#[test]
fn test_salir_desde_cada_estado() {
    for estado in [
        GameState::Inicio,
        GameState::TurnoJugador,
        GameState::FinJuego,
    ] {
        let mut app = AppState::new();
        app.estado = estado;
        let mut jugador = Jugador::nuevo();
        let mut banca = Jugador::nuevo();
        let mut baraja: Vec<Carta> = Vec::new();
        reiniciar_partida(&mut jugador, &mut banca, &mut baraja);
        app.estado = estado;
        let salir = manejar_evento(
            &mut app,
            &mut jugador,
            &mut banca,
            &mut baraja,
            Tecla::Letra('q'),
        );
        assert!(salir);
    }
}
