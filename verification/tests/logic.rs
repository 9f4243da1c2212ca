use ratjack::deck::crear_baraja;
use ratjack::logic::{determinar_ganador, jugar_turno, repartir_cartas};
use ratjack::player::Jugador;

#[test]
fn test_repartir_cartas() {
    let mut baraja = crear_baraja();
    let mut jugador = Jugador::nuevo();
    let mut banca = Jugador::nuevo();

    repartir_cartas(&mut jugador, &mut banca, &mut baraja);

    assert_eq!(jugador.mano.len(), 2);
    assert_eq!(banca.mano.len(), 2);
    assert_eq!(baraja.len(), 48); // 52 - 4 cartas repartidas
}

#[test]
fn test_jugar_turno() {
    let mut baraja = crear_baraja();
    let mut jugador = Jugador::nuevo();

    jugar_turno(&mut jugador, &mut baraja, true);
    assert_eq!(jugador.mano.len(), 1);

    jugar_turno(&mut jugador, &mut baraja, false);
    assert_eq!(jugador.mano.len(), 1); // No debe cambiar si no toma carta
}

#[test]
fn test_determinar_ganador_jugador_pasa() {
    let mut jugador = Jugador::nuevo();
    let mut banca = Jugador::nuevo();
    jugador.puntos = 22;
    banca.puntos = 18;

    assert_eq!(
        determinar_ganador(&mut jugador, &mut banca),
        "Te has pasado. ¡La banca gana!"
    );
}

#[test]
fn test_determinar_ganador_banca_pasa() {
    let mut jugador = Jugador::nuevo();
    let mut banca = Jugador::nuevo();
    jugador.puntos = 18;
    banca.puntos = 22;

    assert_eq!(
        determinar_ganador(&mut jugador, &mut banca),
        "La banca se ha pasado. ¡Has ganado!"
    );
}

#[test]
fn test_determinar_ganador_jugador_gana() {
    let mut jugador = Jugador::nuevo();
    let mut banca = Jugador::nuevo();
    jugador.puntos = 20;
    banca.puntos = 18;

    assert_eq!(determinar_ganador(&mut jugador, &mut banca), "¡Has ganado!");
}

#[test]
fn test_determinar_ganador_banca_gana() {
    let mut jugador = Jugador::nuevo();
    let mut banca = Jugador::nuevo();
    jugador.puntos = 17;
    banca.puntos = 20;

    assert_eq!(
        determinar_ganador(&mut jugador, &mut banca),
        "La banca gana."
    );
}

#[test]
fn test_determinar_ganador_empate() {
    let mut jugador = Jugador::nuevo();
    let mut banca = Jugador::nuevo();
    jugador.puntos = 19;
    banca.puntos = 19;

    assert_eq!(determinar_ganador(&mut jugador, &mut banca), "Empate.");
}

#[test]
fn test_determinar_ganador_contadores() {
    // Quien gana suma exactamente una victoria; en el empate, nadie.
    let mut jugador = Jugador::nuevo();
    let mut banca = Jugador::nuevo();

    jugador.puntos = 22;
    banca.puntos = 18;
    determinar_ganador(&mut jugador, &mut banca);
    assert_eq!(jugador.partidas_ganadas, 0);
    assert_eq!(banca.partidas_ganadas, 1);

    jugador.puntos = 18;
    banca.puntos = 22;
    determinar_ganador(&mut jugador, &mut banca);
    assert_eq!(jugador.partidas_ganadas, 1);
    assert_eq!(banca.partidas_ganadas, 1);

    jugador.puntos = 19;
    banca.puntos = 19;
    determinar_ganador(&mut jugador, &mut banca);
    assert_eq!(jugador.partidas_ganadas, 1);
    assert_eq!(banca.partidas_ganadas, 1);
}
